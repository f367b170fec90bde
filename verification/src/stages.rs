//! The three kernels over raw slot buffers, and what each leaves behind.

use vstd::prelude::*;
use crate::particle::Particle;

verus! {

/// The alive particles of `slots`, in the order in which they stand.
pub open spec fn survivors(slots: Seq<Particle>) -> Seq<Particle> {
    slots.filter(|particle: Particle| particle.is_alive())
}

/// The target buffer after compaction: the survivors of all source slots
/// packed at its front, the rest of it as it was.
pub open spec fn compacted_buffer(source: Seq<Particle>, target: Seq<Particle>) -> Seq<Particle> {
    survivors(source) + target.skip(survivors(source).len() as int)
}

/// Whether no slot of `buffer` holds an alive particle.
pub open spec fn none_alive(buffer: Seq<Particle>) -> bool {
    forall|slot: int| 0 <= slot < buffer.len() ==> !(#[trigger] buffer[slot]).is_alive()
}

/// Whether two buffers hold the same alive particles in the same slots.
/// What their dead slots hold may differ.
pub open spec fn same_alive(one: Seq<Particle>, other: Seq<Particle>) -> bool {
    &&& one.len() == other.len()
    &&& forall|slot: int|
        0 <= slot < one.len() && (one[slot].is_alive() || other[slot].is_alive()) ==> one[slot]
            == other[slot]
}

/// Every slot of `source`, occupied or not, `delta_time` nanoseconds older.
pub open spec fn aged_buffer(source: Seq<Particle>, delta_time: nat) -> Seq<Particle> {
    Seq::new(source.len(), |slot: int| source[slot].aged(delta_time))
}

/// `count` newborn particles of one lifetime.
pub open spec fn newborn(count: nat, lifetime: u64) -> Seq<Particle> {
    Seq::new(count, |slot: int| Particle::spawned(lifetime))
}

/// `buffer` with `count` newborn particles in the slots from `first` on.
pub open spec fn spawned_buffer(
    buffer: Seq<Particle>,
    first: nat,
    count: nat,
    lifetime: u64,
) -> Seq<Particle> {
    Seq::new(
        buffer.len(),
        |slot: int|
            if first <= slot < first + count {
                Particle::spawned(lifetime)
            } else {
                buffer[slot]
            },
    )
}

/// One more slot examined: a survivor is appended, a dead particle is not.
pub proof fn lemma_survivors_step(slots: Seq<Particle>, examined: int)
    requires
        0 <= examined < slots.len(),
    ensures
        survivors(slots.take(examined + 1)) == if slots[examined].is_alive() {
            survivors(slots.take(examined)).push(slots[examined])
        } else {
            survivors(slots.take(examined))
        },
{
    reveal(Seq::filter);
    assert(slots.take(examined + 1).drop_last() =~= slots.take(examined));
}

/// No more particles survive than were examined.
pub proof fn lemma_survivors_len(slots: Seq<Particle>)
    ensures
        survivors(slots).len() <= slots.len(),
{
    slots.lemma_filter_len(|particle: Particle| particle.is_alive());
}

/// Every survivor is alive and stood among the particles examined.
pub proof fn lemma_survivors_are_alive(slots: Seq<Particle>, slot: int)
    requires
        0 <= slot < survivors(slots).len(),
    ensures
        survivors(slots)[slot].is_alive(),
        slots.contains(survivors(slots)[slot]),
{
    let alive = |particle: Particle| particle.is_alive();
    slots.lemma_filter_pred(alive, slot);
    assert(slots.filter(alive).contains(survivors(slots)[slot]));
    slots.lemma_filter_contains_rev(alive, survivors(slots)[slot]);
}

/// Each particle stands among the survivors as often as it stood among the
/// particles examined if it is alive, and not at all if it is dead.
pub proof fn lemma_survivors_count(slots: Seq<Particle>, particle: Particle)
    ensures
        survivors(slots).to_multiset().count(particle) == if particle.is_alive() {
            slots.to_multiset().count(particle)
        } else {
            0
        },
    decreases slots.len(),
{
    reveal(Seq::filter);
    if slots.len() == 0 {
        assert(survivors(slots) =~= slots);
        slots.to_multiset_ensures();
        assert(!slots.contains(particle));
    } else {
        let rest = slots.drop_last();
        let last = slots.last();
        lemma_survivors_count(rest, particle);
        assert(slots =~= rest.push(last));
        vstd::seq_lib::to_multiset_build(rest, last);
        vstd::seq_lib::to_multiset_build(survivors(rest), last);
    }
}

/// The place that compaction gives to the particle in `slot`, if it is
/// alive: the number of alive particles in the slots before it.
pub open spec fn place_of(slots: Seq<Particle>, slot: int) -> nat {
    survivors(slots.take(slot)).len()
}

/// The survivors of the first slots stand at the front of the survivors of
/// all slots.
pub proof fn lemma_survivors_of_front(slots: Seq<Particle>, examined: int)
    requires
        0 <= examined <= slots.len(),
    ensures
        survivors(slots) == survivors(slots.take(examined)) + survivors(slots.skip(examined)),
{
    assert(slots =~= slots.take(examined) + slots.skip(examined));
    Seq::filter_distributes_over_add(
        slots.take(examined),
        slots.skip(examined),
        |particle: Particle| particle.is_alive(),
    );
}

/// Every alive slot gets a place among the survivors, which holds its
/// particle unaltered, and a later alive slot gets a later place: no two
/// alive slots share one.
pub proof fn lemma_alive_slot_has_place(slots: Seq<Particle>, slot: int, later: int)
    requires
        0 <= slot < slots.len(),
        slots[slot].is_alive(),
    ensures
        place_of(slots, slot) < survivors(slots).len(),
        survivors(slots)[place_of(slots, slot) as int] == slots[slot],
        slot < later <= slots.len() ==> place_of(slots, slot) < place_of(slots, later),
{
    lemma_survivors_step(slots, slot);
    lemma_survivors_of_front(slots, slot + 1);
    if slot < later <= slots.len() {
        lemma_survivors_of_front(slots.take(later), slot + 1);
        assert(slots.take(later).take(slot + 1) =~= slots.take(slot + 1));
    }
}

/// Buffers with the same alive particles in the same slots have the same
/// survivors.
pub proof fn lemma_survivors_of_same_alive(one: Seq<Particle>, other: Seq<Particle>)
    requires
        same_alive(one, other),
    ensures
        survivors(one) == survivors(other),
    decreases one.len(),
{
    reveal(Seq::filter);
    if one.len() > 0 {
        lemma_survivors_of_same_alive(one.drop_last(), other.drop_last());
    }
}

/// A buffer without an alive particle has no survivors.
pub proof fn lemma_survivors_of_none_alive(buffer: Seq<Particle>)
    requires
        none_alive(buffer),
    ensures
        survivors(buffer) == Seq::<Particle>::empty(),
    decreases buffer.len(),
{
    reveal(Seq::filter);
    if buffer.len() > 0 {
        lemma_survivors_of_none_alive(buffer.drop_last());
    }
}

/// Tests every slot of `source`, packs the survivors at the front of
/// `target` and returns how many there are.
pub(crate) fn compact_into(source: &Vec<Particle>, target: &mut Vec<Particle>) -> (count: usize)
    requires
        source.len() == old(target).len(),
    ensures
        count == survivors(source@).len(),
        final(target)@ == compacted_buffer(source@, old(target)@),
    no_unwind
{
    let mut count: usize = 0;
    let mut slot: usize = 0;
    while slot < source.len()
        invariant
            slot <= source.len(),
            target.len() == old(target).len(),
            source.len() == target.len(),
            count <= slot,
            count == survivors(source@.take(slot as int)).len(),
            target@.take(count as int) == survivors(source@.take(slot as int)),
            forall|i: int| count <= i < target.len() ==> target@[i] == old(target)@[i],
        decreases source.len() - slot,
    {
        let particle = source[slot];
        proof {
            lemma_survivors_step(source@, slot as int);
        }
        if particle.alive() {
            let ghost before = target@;
            target[count] = particle;
            assert(target@.take(count as int + 1) =~= before.take(count as int).push(particle));
            count = count + 1;
        }
        slot = slot + 1;
    }
    assert(source@.take(slot as int) =~= source@);
    assert(target@ =~= compacted_buffer(source@, old(target)@));
    count
}

/// Writes every slot of `source`, aged by `delta_time`, to the same slot of
/// `target`.
pub(crate) fn update_into(source: &Vec<Particle>, target: &mut Vec<Particle>, delta_time: u64)
    requires
        source.len() == old(target).len(),
    ensures
        final(target)@ == aged_buffer(source@, delta_time as nat),
    no_unwind
{
    let mut slot: usize = 0;
    while slot < source.len()
        invariant
            slot <= source.len(),
            target.len() == source.len(),
            forall|i: int| 0 <= i < slot ==> target@[i] == source@[i].aged(delta_time as nat),
        decreases source.len() - slot,
    {
        target[slot] = source[slot].age_by(delta_time);
        slot = slot + 1;
    }
    assert(target@ =~= aged_buffer(source@, delta_time as nat));
}

/// Writes `count` newborn particles to the slots of `buffer` from `first` on.
pub(crate) fn emit_into(buffer: &mut Vec<Particle>, first: usize, count: usize, lifetime: u64)
    requires
        first + count <= old(buffer).len(),
    ensures
        final(buffer)@ == spawned_buffer(old(buffer)@, first as nat, count as nat, lifetime),
    no_unwind
{
    let mut written: usize = 0;
    while written < count
        invariant
            written <= count,
            first + count <= buffer.len(),
            buffer.len() == old(buffer).len(),
            forall|i: int|
                0 <= i < buffer.len() ==> buffer@[i] == if first <= i < first + written {
                    Particle::spawned(lifetime)
                } else {
                    old(buffer)@[i]
                },
        decreases count - written,
    {
        buffer[first + written] = Particle::spawn(lifetime);
        written = written + 1;
    }
    assert(buffer@ =~= spawned_buffer(old(buffer)@, first as nat, count as nat, lifetime));
}

} // verus!
