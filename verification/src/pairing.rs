//! Which source pays which destination: a round robin over the sources whose
//! destination offset turns by one after every full cycle.
use vstd::arithmetic::div_mod::{
    lemma_fundamental_div_mod, lemma_fundamental_div_mod_converse, lemma_hoist_over_denominator,
    lemma_mod_bound, lemma_mod_mod, lemma_mod_multiples_vanish, lemma_small_mod,
};
use vstd::arithmetic::mul::{lemma_mul_is_commutative, lemma_mul_strictly_positive};
use vstd::prelude::*;

verus! {

/// The source of the transfer at `position`.
pub open spec fn source_at(position: int, num_sources: int) -> int {
    position % num_sources
}

/// The destination of the transfer at `position`: the source's index, shifted
/// by the number of full cycles through the sources.
pub open spec fn dest_at(position: int, num_sources: int, num_dests: int) -> int {
    (position % num_sources + position / num_sources) % num_dests
}

/// A place in the sequence of transfers.
#[derive(Debug, Clone, Copy)]
pub struct PairCursor {
    /// Index of the next source.
    pub source_index: usize,
    /// Number of full cycles through the sources, modulo the destinations.
    pub dest_offset: usize,
}

impl PairCursor {
    /// Whether the cursor fits pools of these sizes.
    pub open spec fn fits(self, num_sources: int, num_dests: int) -> bool {
        self.source_index < num_sources && self.dest_offset < num_dests
    }

    /// How many transfers lie between the start of the sequence and the cursor,
    /// modulo the length of the sequence.
    pub open spec fn position(self, num_sources: int) -> int {
        self.dest_offset * num_sources + self.source_index
    }

    /// The cursor at the start of the sequence.
    pub fn start() -> (cursor: PairCursor)
        ensures
            cursor.source_index == 0,
            cursor.dest_offset == 0,
    {
        PairCursor { source_index: 0, dest_offset: 0 }
    }

    /// The source and the destination of the transfer at the cursor, which then
    /// moves on by one.
    pub fn next_pair(&mut self, num_sources: usize, num_dests: usize) -> (pair: (usize, usize))
        requires
            old(self).fits(num_sources as int, num_dests as int),
            num_sources + num_dests <= usize::MAX,
        ensures
            pair.0 == source_at(old(self).position(num_sources as int), num_sources as int),
            pair.1 == dest_at(
                old(self).position(num_sources as int),
                num_sources as int,
                num_dests as int,
            ),
            pair.0 < num_sources,
            pair.1 < num_dests,
            pair.0 == old(self).source_index,
            pair.1 == (old(self).source_index + old(self).dest_offset) % (num_dests as int),
            old(self).source_index + 1 < num_sources ==> final(self).source_index
                == old(self).source_index + 1 && final(self).dest_offset == old(self).dest_offset,
            old(self).source_index + 1 == num_sources ==> final(self).source_index == 0
                && final(self).dest_offset == (old(self).dest_offset + 1) % (num_dests as int),
            final(self).fits(num_sources as int, num_dests as int),
            final(self).position(num_sources as int) == (old(self).position(num_sources as int) + 1)
                % (num_sources * num_dests),
    {
        let source_index: usize = self.source_index;
        let dest_index: usize = (source_index + self.dest_offset) % num_dests;
        proof {
            lemma_position_parts(*self, num_sources as int);
            lemma_advance(*self, num_sources as int, num_dests as int);
            if source_index + 1 < num_sources {
                lemma_small_mod((source_index + 1) as nat, num_sources as nat);
            } else {
                vstd::arithmetic::div_mod::lemma_mod_self_0(num_sources as int);
            }
        }
        self.source_index = (source_index + 1) % num_sources;
        // A full cycle through the sources is complete.
        if self.source_index == 0 {
            self.dest_offset = (self.dest_offset + 1) % num_dests;
        }
        (source_index, dest_index)
    }

    /// The pairs of the next `count` transfers, in order; the cursor moves past
    /// all of them.
    pub fn next_pairs(&mut self, num_sources: usize, num_dests: usize, count: usize) -> (pairs: Vec<
        (usize, usize),
    >)
        requires
            old(self).fits(num_sources as int, num_dests as int),
            num_sources + num_dests <= usize::MAX,
        ensures
            pairs@.len() == count,
            forall|i: int|
                #![trigger pairs@[i]]
                0 <= i < count ==> {
                    &&& pairs@[i].0 == source_at(
                        old(self).position(num_sources as int) + i,
                        num_sources as int,
                    )
                    &&& pairs@[i].1 == dest_at(
                        old(self).position(num_sources as int) + i,
                        num_sources as int,
                        num_dests as int,
                    )
                    &&& pairs@[i].0 < num_sources
                    &&& pairs@[i].1 < num_dests
                },
            final(self).fits(num_sources as int, num_dests as int),
            final(self).position(num_sources as int) == (old(self).position(num_sources as int)
                + count) % (num_sources * num_dests),
    {
        let mut pairs: Vec<(usize, usize)> = Vec::new();
        let ghost start = self.position(num_sources as int);
        let ghost cycle = num_sources * num_dests;
        let mut done: usize = 0;
        proof {
            lemma_position_bound(*self, num_sources as int, num_dests as int);
            lemma_small_mod(start as nat, cycle as nat);
        }
        while done < count
            invariant
                done <= count,
                start == old(self).position(num_sources as int),
                cycle == num_sources * num_dests,
                cycle > 0,
                start >= 0,
                num_sources > 0,
                num_dests > 0,
                num_sources + num_dests <= usize::MAX,
                self.fits(num_sources as int, num_dests as int),
                self.position(num_sources as int) == (start + done) % cycle,
                pairs@.len() == done,
                forall|i: int|
                    #![trigger pairs@[i]]
                    0 <= i < done ==> {
                        &&& pairs@[i].0 == source_at(start + i, num_sources as int)
                        &&& pairs@[i].1 == dest_at(start + i, num_sources as int, num_dests as int)
                        &&& pairs@[i].0 < num_sources
                        &&& pairs@[i].1 < num_dests
                    },
            decreases count - done,
        {
            let pair = self.next_pair(num_sources, num_dests);
            proof {
                law_pairs_repeat_with_the_cycle(
                    start + done,
                    num_sources as int,
                    num_dests as int,
                );
                vstd::arithmetic::div_mod::lemma_add_mod_noop(start + done, 1, cycle);
                vstd::arithmetic::div_mod::lemma_add_mod_noop(
                    (start + done) % cycle,
                    1,
                    cycle,
                );
                lemma_mod_twice(start + done, cycle);
            }
            pairs.push(pair);
            done = done + 1;
        }
        pairs
    }
}

proof fn lemma_mod_twice(x: int, m: int)
    requires
        m > 0,
    ensures
        (x % m) % m == x % m,
{
    lemma_mod_bound(x, m);
    lemma_small_mod((x % m) as nat, m as nat);
}

/// The quotient and the remainder of a cursor's position are its two parts.
proof fn lemma_position_parts(cursor: PairCursor, num_sources: int)
    requires
        cursor.source_index < num_sources,
    ensures
        cursor.position(num_sources) % num_sources == cursor.source_index,
        cursor.position(num_sources) / num_sources == cursor.dest_offset,
{
    lemma_fundamental_div_mod_converse(
        cursor.position(num_sources),
        num_sources,
        cursor.dest_offset as int,
        cursor.source_index as int,
    );
}

/// A position lies within one cycle.
proof fn lemma_position_bound(cursor: PairCursor, num_sources: int, num_dests: int)
    requires
        cursor.fits(num_sources, num_dests),
    ensures
        0 <= cursor.position(num_sources) < num_sources * num_dests,
{
    let (s, o) = (cursor.source_index as int, cursor.dest_offset as int);
    assert(0 <= o * num_sources + s < num_sources * num_dests) by (nonlinear_arith)
        requires
            0 <= s < num_sources,
            0 <= o < num_dests,
    ;
}

/// One step of the two parts is one step of the position.
proof fn lemma_advance(cursor: PairCursor, num_sources: int, num_dests: int)
    requires
        cursor.fits(num_sources, num_dests),
    ensures
        ({
            let s = (cursor.source_index + 1) % num_sources;
            let o = if s == 0 {
                (cursor.dest_offset + 1) % num_dests
            } else {
                cursor.dest_offset as int
            };
            &&& 0 <= s < num_sources
            &&& 0 <= o < num_dests
            &&& o * num_sources + s == (cursor.position(num_sources) + 1) % (num_sources
                * num_dests)
        }),
{
    let (s, o) = (cursor.source_index as int, cursor.dest_offset as int);
    let cycle = num_sources * num_dests;
    lemma_mul_strictly_positive(num_sources, num_dests);
    lemma_position_bound(cursor, num_sources, num_dests);
    if s + 1 < num_sources {
        lemma_small_mod((s + 1) as nat, num_sources as nat);
        assert(o * num_sources + s + 1 < num_sources * num_dests) by (nonlinear_arith)
            requires
                0 <= s,
                s + 1 < num_sources,
                0 <= o < num_dests,
        ;
        lemma_small_mod((o * num_sources + s + 1) as nat, cycle as nat);
    } else {
        vstd::arithmetic::div_mod::lemma_mod_self_0(num_sources);
        assert(o * num_sources + num_sources == (o + 1) * num_sources) by (nonlinear_arith);
        if o + 1 < num_dests {
            lemma_small_mod((o + 1) as nat, num_dests as nat);
            assert((o + 1) * num_sources < num_sources * num_dests) by (nonlinear_arith)
                requires
                    0 <= o,
                    o + 1 < num_dests,
                    num_sources > 0,
            ;
            assert(0 <= (o + 1) * num_sources) by (nonlinear_arith)
                requires
                    0 <= o,
                    num_sources > 0,
            ;
            lemma_small_mod(((o + 1) * num_sources) as nat, cycle as nat);
        } else {
            vstd::arithmetic::div_mod::lemma_mod_self_0(num_dests);
            lemma_mul_is_commutative(num_dests, num_sources);
            vstd::arithmetic::div_mod::lemma_mod_self_0(cycle);
            assert(0 * num_sources == 0) by (nonlinear_arith);
        }
    }
}

/// The pair at a position is the pair at that position within its cycle.
pub proof fn law_pairs_repeat_with_the_cycle(position: int, num_sources: int, num_dests: int)
    requires
        num_sources > 0,
        num_dests > 0,
    ensures
        source_at(position % (num_sources * num_dests), num_sources) == source_at(
            position,
            num_sources,
        ),
        dest_at(position % (num_sources * num_dests), num_sources, num_dests) == dest_at(
            position,
            num_sources,
            num_dests,
        ),
{
    let cycle = num_sources * num_dests;
    lemma_mul_strictly_positive(num_sources, num_dests);
    let q = position / cycle;
    let r = position % cycle;
    lemma_fundamental_div_mod(position, cycle);
    lemma_mod_mod(position, num_sources, num_dests);
    assert(position == r + (q * num_dests) * num_sources) by (nonlinear_arith)
        requires
            position == (num_sources * num_dests) * q + r,
    ;
    lemma_hoist_over_denominator(r, q * num_dests, num_sources as nat);
    lemma_mod_multiples_vanish(q, r % num_sources + r / num_sources, num_dests);
    lemma_mul_is_commutative(q, num_dests);
}

/// Two numbers less than `m` apart have the same remainder only if they are equal.
pub proof fn lemma_close_remainders_differ(x: int, y: int, m: int)
    requires
        m > 0,
        x != y,
        -m < x - y < m,
    ensures
        x % m != y % m,
{
    lemma_fundamental_div_mod(x, m);
    lemma_fundamental_div_mod(y, m);
    if x % m == y % m {
        let d = x / m - y / m;
        assert(m * (x / m) - m * (y / m) == m * d) by (nonlinear_arith)
            requires
                d == x / m - y / m,
        ;
        assert(-m < m * d < m && m * d != 0 ==> false) by (nonlinear_arith)
            requires
                m > 0,
        ;
    }
}

/// Over a full cycle of `num_sources * num_dests` transfers no pair of a source
/// and a destination comes twice; after it the same pairs come again.
pub proof fn law_pairs_are_unique_until_they_repeat(
    p: int,
    q: int,
    num_sources: int,
    num_dests: int,
)
    requires
        num_sources > 0,
        num_dests > 0,
    ensures
        (source_at(p, num_sources) == source_at(q, num_sources) && dest_at(
            p,
            num_sources,
            num_dests,
        ) == dest_at(q, num_sources, num_dests)) <==> p % (num_sources * num_dests) == q % (
        num_sources * num_dests),
{
    let cycle = num_sources * num_dests;
    lemma_mul_strictly_positive(num_sources, num_dests);
    law_pairs_repeat_with_the_cycle(p, num_sources, num_dests);
    law_pairs_repeat_with_the_cycle(q, num_sources, num_dests);
    let (a, b) = (p % cycle, q % cycle);
    lemma_mod_bound(p, cycle);
    lemma_mod_bound(q, cycle);
    lemma_cycles_bound(a, num_sources, num_dests);
    lemma_cycles_bound(b, num_sources, num_dests);
    if source_at(a, num_sources) == source_at(b, num_sources) && dest_at(a, num_sources, num_dests)
        == dest_at(b, num_sources, num_dests) {
        if a / num_sources != b / num_sources {
            lemma_close_remainders_differ(
                a % num_sources + a / num_sources,
                b % num_sources + b / num_sources,
                num_dests,
            );
        }
        lemma_fundamental_div_mod(a, num_sources);
        lemma_fundamental_div_mod(b, num_sources);
    }
}

/// A position within one cycle is less than `num_dests` rounds in.
proof fn lemma_cycles_bound(position: int, num_sources: int, num_dests: int)
    requires
        num_sources > 0,
        num_dests > 0,
        0 <= position < num_sources * num_dests,
    ensures
        0 <= position / num_sources < num_dests,
        0 <= position % num_sources < num_sources,
{
    lemma_fundamental_div_mod(position, num_sources);
    lemma_mod_bound(position, num_sources);
    let q = position / num_sources;
    let r = position % num_sources;
    assert(0 <= q < num_dests) by (nonlinear_arith)
        requires
            position == num_sources * q + r,
            0 <= r < num_sources,
            0 <= position < num_sources * num_dests,
    ;
}

/// Every source pays every destination within one cycle.
pub proof fn law_every_pair_occurs_in_a_cycle(
    source: int,
    dest: int,
    num_sources: int,
    num_dests: int,
) -> (position: int)
    requires
        0 <= source < num_sources,
        0 <= dest < num_dests,
    ensures
        0 <= position < num_sources * num_dests,
        source_at(position, num_sources) == source,
        dest_at(position, num_sources, num_dests) == dest,
{
    let rounds = (dest - source) % num_dests;
    lemma_mod_bound(dest - source, num_dests);
    let position = rounds * num_sources + source;
    assert(0 <= rounds * num_sources + source < num_sources * num_dests) by (nonlinear_arith)
        requires
            0 <= source < num_sources,
            0 <= rounds < num_dests,
    ;
    lemma_fundamental_div_mod_converse(position, num_sources, rounds, source);
    vstd::arithmetic::div_mod::lemma_add_mod_noop_right(source, dest - source, num_dests);
    lemma_small_mod(dest as nat, num_dests as nat);
    position
}

/// In a batch that is no longer than the source pool no two transfers share a
/// source. If it is shorter, or starts with the first source, no two share a
/// destination either.
pub proof fn law_short_batches_have_no_conflicts(
    start: int,
    count: int,
    i: int,
    j: int,
    num_sources: int,
    num_dests: int,
)
    requires
        0 < num_sources <= num_dests,
        0 <= i < j < count <= num_sources,
    ensures
        source_at(start + i, num_sources) != source_at(start + j, num_sources),
        count < num_sources || start % num_sources == 0 ==> dest_at(
            start + i,
            num_sources,
            num_dests,
        ) != dest_at(start + j, num_sources, num_dests),
{
    let (a, b) = (start + i, start + j);
    lemma_close_remainders_differ(a, b, num_sources);
    if count < num_sources || start % num_sources == 0 {
        lemma_round_step(a, b - a, num_sources);
        if count == num_sources {
            lemma_round_step(start, i, num_sources);
            lemma_round_step(start, j, num_sources);
        }
        lemma_close_remainders_differ(
            a % num_sources + a / num_sources,
            b % num_sources + b / num_sources,
            num_dests,
        );
    }
}

/// Where a step shorter than one round leads.
proof fn lemma_round_step(position: int, step: int, num_sources: int)
    requires
        num_sources > 0,
        0 <= step < num_sources,
    ensures
        position % num_sources + step < num_sources ==> {
            &&& (position + step) / num_sources == position / num_sources
            &&& (position + step) % num_sources == position % num_sources + step
        },
        position % num_sources + step >= num_sources ==> {
            &&& (position + step) / num_sources == position / num_sources + 1
            &&& (position + step) % num_sources == position % num_sources + step - num_sources
        },
        0 <= position % num_sources < num_sources,
{
    let (q, r) = (position / num_sources, position % num_sources);
    lemma_fundamental_div_mod(position, num_sources);
    lemma_mod_bound(position, num_sources);
    lemma_mul_is_commutative(num_sources, q);
    if r + step < num_sources {
        lemma_fundamental_div_mod_converse(position + step, num_sources, q, r + step);
    } else {
        assert((q + 1) * num_sources == q * num_sources + num_sources) by (nonlinear_arith);
        lemma_fundamental_div_mod_converse(
            position + step,
            num_sources,
            q + 1,
            r + step - num_sources,
        );
    }
}

/// Two transfers in a row never share their source, nor their destination
/// except at the step from one round to the next with two sources, where both
/// pay the same one.
pub proof fn law_consecutive_transfers_differ(position: int, num_sources: int, num_dests: int)
    requires
        2 <= num_sources <= num_dests,
    ensures
        source_at(position, num_sources) != source_at(position + 1, num_sources),
        dest_at(position, num_sources, num_dests) == dest_at(position + 1, num_sources, num_dests)
            <==> num_sources == 2 && position % num_sources == 1,
{
    lemma_round_step(position, 1, num_sources);
    lemma_close_remainders_differ(position, position + 1, num_sources);
    if num_sources > 2 || position % num_sources != 1 {
        lemma_close_remainders_differ(
            position % num_sources + position / num_sources,
            (position + 1) % num_sources + (position + 1) / num_sources,
            num_dests,
        );
    }
}

/// A batch that is longer than the source pool uses some source twice: the
/// transfers one full round apart.
pub proof fn law_long_batches_reuse_sources(position: int, num_sources: int)
    requires
        num_sources > 0,
    ensures
        source_at(position + num_sources, num_sources) == source_at(position, num_sources),
{
    vstd::arithmetic::div_mod::lemma_mod_add_multiples_vanish(position, num_sources);
}

/// The sources take turns, and in a round each is paired with the destination as
/// many places further as there were full rounds before it.
pub proof fn law_rounds_shift_the_destinations(
    round: int,
    source: int,
    num_sources: int,
    num_dests: int,
)
    requires
        0 <= source < num_sources,
        num_dests > 0,
    ensures
        source_at(round * num_sources + source, num_sources) == source,
        dest_at(round * num_sources + source, num_sources, num_dests) == (source + round)
            % num_dests,
{
    lemma_fundamental_div_mod_converse(round * num_sources + source, num_sources, round, source);
}

} // verus!
