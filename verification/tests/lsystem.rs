use beatsmr::lsystem::{build_axiom, expand, Op};

fn word(text: &str) -> Vec<Op> {
    text.chars()
        .map(|c| match c {
            'F' => Op::Forward,
            'L' => Op::TurnLeft,
            'R' => Op::TurnRight,
            other => panic!("unknown symbol {other}"),
        })
        .collect()
}

fn forwards(ops: &[Op]) -> usize {
    ops.iter().filter(|op| matches!(op, Op::Forward)).count()
}

fn turns(ops: &[Op]) -> usize {
    ops.iter().filter(|op| !matches!(op, Op::Forward)).count()
}

#[test]
fn axiom_is_flfrfrfflflfrf() {
    assert_eq!(build_axiom(), word("FLFRFRFFLFLFRF"));
}

#[test]
fn zero_iterations_return_the_seed() {
    assert_eq!(expand(build_axiom(), 0), build_axiom());
    assert_eq!(expand(word("LFR"), 0), word("LFR"));
    assert_eq!(expand(Vec::new(), 0), Vec::<Op>::new());
}

#[test]
fn one_pass_replaces_each_forward_by_the_seed() {
    assert_eq!(expand(word("FL"), 1), word("FLL"));
    assert_eq!(expand(word("FL"), 2), word("FLLL"));
    assert_eq!(expand(word("LFR"), 1), word("LLFRR"));
    assert_eq!(expand(word("FRF"), 1), word("FRFRFRF"));
}

#[test]
fn turns_are_terminals() {
    assert_eq!(expand(word("LRRL"), 5), word("LRRL"));
    assert_eq!(expand(word("F"), 7), word("F"));
    assert_eq!(expand(Vec::new(), 3), Vec::<Op>::new());
}

#[test]
fn axiom_expansion_sizes() {
    let once = expand(build_axiom(), 1);
    assert_eq!(once.len(), 14 + 8 * 13);
    assert_eq!(forwards(&once), 64);
    assert_eq!(turns(&once), 6 + 8 * 6);

    let twice = expand(build_axiom(), 2);
    assert_eq!(forwards(&twice), 512);
    assert_eq!(twice.len(), once.len() + 64 * 13);
    assert_eq!(turns(&twice), turns(&once) + 64 * 6);
}

#[test]
fn axiom_first_pass_starts_with_the_axiom() {
    let once = expand(build_axiom(), 1);
    let seed_word = build_axiom();
    assert_eq!(&once[..14], &seed_word[..]);
    // the second symbol of the axiom is a turn, kept as it is
    assert_eq!(once[14], Op::TurnLeft);
    assert_eq!(&once[15..29], &seed_word[..]);
}

#[test]
fn expanding_an_expansion() {
    // expand(expand(s, a), b) == expand(s, (a + 1) * (b + 1) - 1)
    let s = word("FLFR");
    assert_eq!(expand(expand(s.clone(), 1), 1), expand(s.clone(), 3));
    assert_eq!(expand(expand(s.clone(), 2), 1), expand(s.clone(), 5));
    assert_eq!(expand(expand(s.clone(), 0), 2), expand(s.clone(), 2));
}
