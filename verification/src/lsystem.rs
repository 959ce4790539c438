use vstd::prelude::*;
use vstd::arithmetic::power::pow;

verus! {

/// Symbols in the L-system alphabet.
#[derive(Clone, Copy, Debug, PartialEq, Eq, Structural)]
pub enum Op {
    /// Move forward one step and record the position.
    Forward,
    /// Turn left (counter-clockwise) by 90 degrees.
    TurnLeft,
    /// Turn right (clockwise) by 90 degrees.
    TurnRight,
}

/// The seed / axiom `FLFRFRFFLFLFRF` as a sequence of symbols.
pub open spec fn initial_word() -> Seq<Op> {
    seq![
        Op::Forward, Op::TurnLeft, Op::Forward, Op::TurnRight, Op::Forward, Op::TurnRight,
        Op::Forward, Op::Forward, Op::TurnLeft, Op::Forward, Op::TurnLeft, Op::Forward,
        Op::TurnRight, Op::Forward,
    ]
}

/// What one symbol becomes under the production `F -> seed`:
/// `Forward` is replaced by the whole seed, turns are terminals and stay.
pub open spec fn produce(op: Op, seed: Seq<Op>) -> Seq<Op> {
    match op {
        Op::Forward => seed,
        Op::TurnLeft => seq![Op::TurnLeft],
        Op::TurnRight => seq![Op::TurnRight],
    }
}

/// One rewriting pass: every symbol of `ops` is replaced by its production,
/// in order.
pub open spec fn rewrite(ops: Seq<Op>, seed: Seq<Op>) -> Seq<Op>
    decreases ops.len(),
{
    if ops.len() == 0 {
        Seq::empty()
    } else {
        rewrite(ops.drop_last(), seed) + produce(ops.last(), seed)
    }
}

/// The word obtained from `seed` after `n` rewriting passes with the rule
/// `F -> seed`.
pub open spec fn expansion(seed: Seq<Op>, n: nat) -> Seq<Op>
    decreases n,
{
    if n == 0 {
        seed
    } else {
        rewrite(expansion(seed, (n - 1) as nat), seed)
    }
}

/// Number of `Forward` symbols in a word.
pub open spec fn forward_count(ops: Seq<Op>) -> nat
    decreases ops.len(),
{
    if ops.len() == 0 {
        0
    } else {
        forward_count(ops.drop_last()) + if ops.last() is Forward { 1nat } else { 0nat }
    }
}

/// Number of turn symbols (`TurnLeft` or `TurnRight`) in a word.
pub open spec fn turn_count(ops: Seq<Op>) -> nat
    decreases ops.len(),
{
    if ops.len() == 0 {
        0
    } else {
        turn_count(ops.drop_last()) + if ops.last() is Forward { 0nat } else { 1nat }
    }
}

/// Builds a seed word symbol by symbol.
pub struct SeedBuilder {
    pub seed: Vec<Op>,
}

impl SeedBuilder {
    fn new() -> (b: Self)
        ensures
            b.seed@ == Seq::<Op>::empty(),
    {
        Self { seed: Vec::new() }
    }

    fn build(&self) -> (ops: Vec<Op>)
        ensures
            ops@ == self.seed@,
    {
        copy_ops(&self.seed)
    }

    fn f(self) -> (b: Self)
        ensures
            b.seed@ == self.seed@.push(Op::Forward),
    {
        let mut b = self;
        b.seed.push(Op::Forward);
        b
    }

    fn l(self) -> (b: Self)
        ensures
            b.seed@ == self.seed@.push(Op::TurnLeft),
    {
        let mut b = self;
        b.seed.push(Op::TurnLeft);
        b
    }

    fn r(self) -> (b: Self)
        ensures
            b.seed@ == self.seed@.push(Op::TurnRight),
    {
        let mut b = self;
        b.seed.push(Op::TurnRight);
        b
    }
}

/// A fresh vector holding the same symbols as `src`.
fn copy_ops(src: &Vec<Op>) -> (dst: Vec<Op>)
    ensures
        dst@ == src@,
{
    let mut dst: Vec<Op> = Vec::new();
    append_ops(&mut dst, src);
    dst
}

/// Appends the symbols of `src`, in order, to `dst`.
fn append_ops(dst: &mut Vec<Op>, src: &Vec<Op>)
    ensures
        final(dst)@ == old(dst)@ + src@,
{
    let mut i: usize = 0;
    while i < src.len()
        invariant
            i <= src.len(),
            dst@ == old(dst)@ + src@.take(i as int),
        decreases src.len() - i,
    {
        dst.push(src[i]);
        assert(src@.take(i + 1) =~= src@.take(i as int).push(src@[i as int]));
        i += 1;
    }
    assert(src@.take(src.len() as int) =~= src@);
}

/// The seed / axiom: FLFRFRFFLFLFRF
pub fn build_axiom() -> (ops: Vec<Op>)
    ensures
        ops@ == initial_word(),
{
    let b = SeedBuilder::new().f().l().f().r().f().r().f().f().l().f().l().f().r().f();
    let ops = b.build();
    assert(ops@ =~= initial_word());
    ops
}

/// Apply the production rule `F → seed` the given number of times.
/// `L` and `R` are terminals and are passed through unchanged.
pub fn expand(seed: Vec<Op>, iterations: usize) -> (result: Vec<Op>)
    ensures
        result@ == expansion(seed@, iterations as nat),
{
    let mut current = copy_ops(&seed);
    let mut k: usize = 0;
    while k < iterations
        invariant
            k <= iterations,
            current@ == expansion(seed@, k as nat),
        decreases iterations - k,
    {
        let mut next: Vec<Op> = Vec::new();
        let mut i: usize = 0;
        while i < current.len()
            invariant
                i <= current.len(),
                next@ == rewrite(current@.take(i as int), seed@),
            decreases current.len() - i,
        {
            let ghost before = next@;
            match current[i] {
                Op::Forward => append_ops(&mut next, &seed),
                Op::TurnLeft => next.push(Op::TurnLeft),
                Op::TurnRight => next.push(Op::TurnRight),
            }
            proof {
                let taken = current@.take(i + 1);
                assert(taken.drop_last() =~= current@.take(i as int));
                assert(taken.last() == current@[i as int]);
                assert(next@ =~= before + produce(current@[i as int], seed@));
            }
            i += 1;
        }
        assert(current@.take(current.len() as int) =~= current@);
        current = next;
        k += 1;
    }
    current
}

/// A one-symbol word rewrites to that symbol's production.
pub proof fn lemma_rewrite_single(op: Op, seed: Seq<Op>)
    ensures
        rewrite(seq![op], seed) == produce(op, seed),
{
    let w = seq![op];
    assert(w.len() == 1);
    assert(w.last() == op);
    assert(w.drop_last() =~= Seq::<Op>::empty());
    assert(rewrite(w.drop_last(), seed) =~= Seq::<Op>::empty());
    assert(Seq::<Op>::empty() + produce(op, seed) =~= produce(op, seed));
}

/// Counts of a one-symbol word.
proof fn lemma_counts_single(op: Op)
    ensures
        forward_count(seq![op]) == if op is Forward { 1nat } else { 0nat },
        turn_count(seq![op]) == if op is Forward { 0nat } else { 1nat },
{
    let w = seq![op];
    assert(w.len() == 1);
    assert(w.last() == op);
    assert(w.drop_last() =~= Seq::<Op>::empty());
    assert(forward_count(w.drop_last()) == 0);
    assert(turn_count(w.drop_last()) == 0);
}

/// Rewriting a concatenation rewrites each part on its own:
/// `rewrite(a + b) == rewrite(a) + rewrite(b)`.
pub proof fn lemma_rewrite_concat(a: Seq<Op>, b: Seq<Op>, seed: Seq<Op>)
    ensures
        rewrite(a + b, seed) == rewrite(a, seed) + rewrite(b, seed),
    decreases b.len(),
{
    if b.len() == 0 {
        assert(a + b =~= a);
        assert(rewrite(a, seed) + rewrite(b, seed) =~= rewrite(a, seed));
    } else {
        lemma_rewrite_concat(a, b.drop_last(), seed);
        assert((a + b).drop_last() =~= a + b.drop_last());
        assert((a + b).last() == b.last());
        assert(rewrite(a, seed) + rewrite(b.drop_last(), seed) + produce(b.last(), seed)
            =~= rewrite(a, seed) + (rewrite(b.drop_last(), seed) + produce(b.last(), seed)));
    }
}

/// Rewriting twice is rewriting once with a rewritten seed:
/// replacing every `F` by `y` and then every `F` by `z` is the same as
/// replacing every `F` by (`y` with every `F` replaced by `z`).
pub proof fn lemma_rewrite_compose(x: Seq<Op>, y: Seq<Op>, z: Seq<Op>)
    ensures
        rewrite(rewrite(x, y), z) == rewrite(x, rewrite(y, z)),
    decreases x.len(),
{
    if x.len() > 0 {
        let x0 = x.drop_last();
        let l = x.last();
        lemma_rewrite_compose(x0, y, z);
        lemma_rewrite_concat(rewrite(x0, y), produce(l, y), z);
        match l {
            Op::Forward => {},
            Op::TurnLeft => lemma_rewrite_single(Op::TurnLeft, z),
            Op::TurnRight => lemma_rewrite_single(Op::TurnRight, z),
        }
    }
}

/// Expanding in stages: `a + b + 1` passes from the seed give the word of
/// `a` passes with every `F` replaced by the word of `b` passes.
pub proof fn lemma_expansion_split(seed: Seq<Op>, a: nat, b: nat)
    ensures
        expansion(seed, a + b + 1) == rewrite(expansion(seed, a), expansion(seed, b)),
    decreases b,
{
    if b > 0 {
        let b1 = (b - 1) as nat;
        lemma_expansion_split(seed, a, b1);
        assert(a + b1 + 1 == a + b);
        assert(expansion(seed, a + b + 1) == rewrite(expansion(seed, a + b), seed));
        lemma_rewrite_compose(expansion(seed, a), expansion(seed, b1), seed);
    }
}

/// Expanding an expansion: `b` passes over the word of `a` passes (which then
/// serves as the seed) give the word of `(a + 1) * (b + 1) - 1` passes over
/// the first seed.
pub proof fn law_expand_of_expansion(seed: Seq<Op>, a: nat, b: nat)
    ensures
        expansion(expansion(seed, a), b) == expansion(seed, ((a + 1) * (b + 1) - 1) as nat),
    decreases b,
{
    if b == 0 {
        assert((a + 1) * (b + 1) - 1 == a) by (nonlinear_arith)
            requires
                b == 0,
        ;
    } else {
        let b1 = (b - 1) as nat;
        law_expand_of_expansion(seed, a, b1);
        let m = ((a + 1) * (b1 + 1) - 1) as nat;
        assert((a + 1) * (b1 + 1) >= 1) by (nonlinear_arith);
        lemma_expansion_split(seed, m, a);
        assert(m + a + 1 == (a + 1) * (b + 1) - 1) by (nonlinear_arith)
            requires
                b == b1 + 1,
                m == (a + 1) * (b1 + 1) - 1,
        ;
    }
}

/// Zero passes leave the seed as it is.
pub proof fn law_expand_zero(seed: Seq<Op>)
    ensures
        expansion(seed, 0) == seed,
{
}

/// With the rule `F -> F` rewriting changes nothing: turns are terminals
/// and pass through unchanged, and each `F` stays an `F`.
pub proof fn law_rewrite_identity(x: Seq<Op>)
    ensures
        rewrite(x, seq![Op::Forward]) == x,
    decreases x.len(),
{
    if x.len() > 0 {
        law_rewrite_identity(x.drop_last());
        assert(x.drop_last() + produce(x.last(), seq![Op::Forward]) =~= x);
    }
}

/// A word without `F` has nothing to rewrite.
pub proof fn law_rewrite_terminals(x: Seq<Op>, seed: Seq<Op>)
    requires
        forward_count(x) == 0,
    ensures
        rewrite(x, seed) == x,
    decreases x.len(),
{
    if x.len() > 0 {
        law_rewrite_terminals(x.drop_last(), seed);
        assert(x.drop_last() + produce(x.last(), seed) =~= x);
    }
}

/// A seed without `F` expands to itself, however many passes are made.
pub proof fn law_expand_terminal_seed(seed: Seq<Op>, n: nat)
    requires
        forward_count(seed) == 0,
    ensures
        expansion(seed, n) == seed,
    decreases n,
{
    if n > 0 {
        law_expand_terminal_seed(seed, (n - 1) as nat);
        law_rewrite_terminals(seed, seed);
    }
}

/// Symbol counts add up over a concatenation.
pub proof fn lemma_counts_concat(a: Seq<Op>, b: Seq<Op>)
    ensures
        forward_count(a + b) == forward_count(a) + forward_count(b),
        turn_count(a + b) == turn_count(a) + turn_count(b),
    decreases b.len(),
{
    if b.len() == 0 {
        assert(a + b =~= a);
    } else {
        lemma_counts_concat(a, b.drop_last());
        assert((a + b).drop_last() =~= a + b.drop_last());
        assert((a + b).last() == b.last());
    }
}

/// Every symbol is either a step or a turn.
pub proof fn lemma_counts_length(x: Seq<Op>)
    ensures
        forward_count(x) + turn_count(x) == x.len(),
    decreases x.len(),
{
    if x.len() > 0 {
        lemma_counts_length(x.drop_last());
    }
}

/// One rewriting pass multiplies the steps by the seed's steps, adds the
/// seed's turns once per step, and keeps the word's own turns:
/// `F(rewrite(x)) == F(x) * F(seed)`, `T(rewrite(x)) == T(x) + F(x) * T(seed)`,
/// and the length grows by `F(x) * (len(seed) - 1)`.
pub proof fn law_rewrite_counts(x: Seq<Op>, seed: Seq<Op>)
    ensures
        forward_count(rewrite(x, seed)) == forward_count(x) * forward_count(seed),
        turn_count(rewrite(x, seed)) == turn_count(x) + forward_count(x) * turn_count(seed),
        rewrite(x, seed).len() + forward_count(x) == x.len() + forward_count(x) * seed.len(),
    decreases x.len(),
{
    if x.len() == 0 {
        assert(rewrite(x, seed) =~= Seq::<Op>::empty());
    } else {
        let x0 = x.drop_last();
        let l = x.last();
        let r0 = rewrite(x0, seed);
        let p = produce(l, seed);
        law_rewrite_counts(x0, seed);
        lemma_counts_concat(r0, p);
        assert(x0.len() + 1 == x.len());
        assert(rewrite(x, seed) == r0 + p);
        assert((r0 + p).len() == r0.len() + p.len());
        let f0 = forward_count(x0);
        let t0 = turn_count(x0);
        let fs = forward_count(seed);
        let ts = turn_count(seed);
        let n = seed.len();
        if l is Forward {
            assert(p == seed);
            assert(forward_count(x) == f0 + 1);
            assert(turn_count(x) == t0);
            lemma_step_arith(f0, fs, ts, n);
        } else {
            lemma_counts_single(l);
            assert(p == seq![l]);
            assert(forward_count(x) == f0);
            assert(turn_count(x) == t0 + 1);
        }
    }
}

proof fn lemma_step_arith(f0: nat, fs: nat, ts: nat, n: nat)
    ensures
        (f0 + 1) * fs == f0 * fs + fs,
        (f0 + 1) * ts == f0 * ts + ts,
        (f0 + 1) * n == f0 * n + n,
{
    assert((f0 + 1) * fs == f0 * fs + fs) by (nonlinear_arith);
    assert((f0 + 1) * ts == f0 * ts + ts) by (nonlinear_arith);
    assert((f0 + 1) * n == f0 * n + n) by (nonlinear_arith);
}

/// After `n` passes the word holds `F(seed)^(n + 1)` steps.
pub proof fn law_expansion_forward_count(seed: Seq<Op>, n: nat)
    ensures
        forward_count(expansion(seed, n)) == pow(forward_count(seed) as int, n + 1),
    decreases n,
{
    reveal(pow);
    if n == 0 {
        assert(pow(forward_count(seed) as int, 1) == forward_count(seed) as int * pow(forward_count(seed) as int, 0));
    } else {
        let n1 = (n - 1) as nat;
        law_expansion_forward_count(seed, n1);
        law_rewrite_counts(expansion(seed, n1), seed);
        assert(pow(forward_count(seed) as int, n + 1) == forward_count(seed) as int * pow(forward_count(seed) as int, n));
        assert(n1 + 1 == n);
        assert(forward_count(expansion(seed, n1)) * forward_count(seed)
            == forward_count(seed) * forward_count(expansion(seed, n1))) by (nonlinear_arith);
    }
}

} // verus!
