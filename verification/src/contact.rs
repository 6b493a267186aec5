//! Foot contact tracking from collision start/stop events.

use vstd::prelude::*;

verus! {

/// Whether a collision began or ended.
#[derive(Clone, Copy, Debug, PartialEq, Eq, Structural)]
pub enum CollisionKind {
    Started,
    Stopped,
}

/// A collision between two entities, each named by its numeric id.
#[derive(Clone, Copy, Debug, PartialEq, Eq, Structural)]
pub struct CollisionEvent {
    pub kind: CollisionKind,
    pub first: u64,
    pub second: u64,
}

/// Contact state of one foot.
#[derive(Clone, Copy, Debug, PartialEq, Eq, Structural)]
pub struct FootContact {
    /// True when this foot is in contact with the ground.
    pub touching_ground: bool,
}

impl FootContact {
    /// A foot starts out not touching the ground.
    pub fn new() -> (r: FootContact)
        ensures
            !r.touching_ground,
    {
        FootContact { touching_ground: false }
    }
}

/// The event is a collision between the foot `entity` and the ground `ground`,
/// in either order.
pub open spec fn pairs_with_ground(ev: CollisionEvent, entity: u64, ground: u64) -> bool {
    (ev.first == entity && ev.second == ground) || (ev.first == ground && ev.second == entity)
}

/// Ground contact of the foot `entity` after the events `events`, in order,
/// starting from `touching`: every collision between the foot and the ground
/// `ground` sets the state to whether the collision started; collisions with
/// anything else leave it alone.
pub open spec fn contact_after(
    entity: u64,
    ground: u64,
    touching: bool,
    events: Seq<CollisionEvent>,
) -> bool
    decreases events.len(),
{
    if events.len() == 0 {
        touching
    } else {
        let before = contact_after(entity, ground, touching, events.drop_last());
        let ev = events.last();
        if pairs_with_ground(ev, entity, ground) {
            ev.kind == CollisionKind::Started
        } else {
            before
        }
    }
}

/// Processes collision events in order and updates the ground contact of every
/// foot that collides with the ground `ground`. The feet keep their order and
/// their entity ids.
pub fn foot_contact_detection(
    events: &Vec<CollisionEvent>,
    ground: u64,
    feet: &mut Vec<(u64, FootContact)>,
)
    ensures
        final(feet)@.len() == old(feet)@.len(),
        forall|k: int|
            0 <= k < final(feet)@.len() ==> (#[trigger] final(feet)@[k]).0 == old(feet)@[k].0
                && final(feet)@[k].1.touching_ground == contact_after(
                old(feet)@[k].0,
                ground,
                old(feet)@[k].1.touching_ground,
                events@,
            ),
{
    let n_events = events.len();
    let n_feet = feet.len();
    let ghost start = feet@;
    let mut i: usize = 0;
    while i < n_events
        invariant
            n_events == events@.len(),
            0 <= i <= n_events,
            feet@.len() == n_feet,
            start.len() == n_feet,
            forall|k: int|
                0 <= k < n_feet ==> #[trigger] feet@[k].0 == start[k].0
                    && feet@[k].1.touching_ground == contact_after(
                    start[k].0,
                    ground,
                    start[k].1.touching_ground,
                    events@.take(i as int),
                ),
        decreases n_events - i,
    {
        let ev = events[i];
        let started = match ev.kind {
            CollisionKind::Started => true,
            CollisionKind::Stopped => false,
        };
        let ghost mid = feet@;
        let mut j: usize = 0;
        while j < n_feet
            invariant
                n_events == events@.len(),
                0 <= i < n_events,
                ev == events@[i as int],
                started == (ev.kind == CollisionKind::Started),
                0 <= j <= n_feet,
                feet@.len() == n_feet,
                mid.len() == n_feet,
                forall|k: int| 0 <= k < n_feet ==> #[trigger] feet@[k].0 == mid[k].0,
                forall|k: int|
                    0 <= k < j ==> #[trigger] feet@[k].1.touching_ground == if pairs_with_ground(
                        ev,
                        mid[k].0,
                        ground,
                    ) {
                        started
                    } else {
                        mid[k].1.touching_ground
                    },
                forall|k: int| j <= k < n_feet ==> #[trigger] feet@[k] == mid[k],
            decreases n_feet - j,
        {
            let entity = feet[j].0;
            if (ev.first == entity && ev.second == ground) || (ev.first == ground && ev.second
                == entity) {
                feet.set(j, (entity, FootContact { touching_ground: started }));
            }
            j = j + 1;
        }
        proof {
            assert(events@.take(i + 1).drop_last() =~= events@.take(i as int));
            assert forall|k: int| 0 <= k < n_feet implies #[trigger] feet@[k].0 == start[k].0
                && feet@[k].1.touching_ground == contact_after(
                start[k].0,
                ground,
                start[k].1.touching_ground,
                events@.take(i + 1),
            ) by {
                assert(events@.take(i + 1).last() == ev);
            }
        }
        i = i + 1;
    }
    proof {
        assert(events@.take(n_events as int) =~= events@);
    }
}

/// A foot that never collides with the ground keeps its contact state,
/// whatever else it collides with.
pub proof fn lemma_foot_off_ground_events_keep_contact(
    entity: u64,
    ground: u64,
    touching: bool,
    events: Seq<CollisionEvent>,
)
    requires
        forall|i: int| 0 <= i < events.len() ==> !pairs_with_ground(#[trigger] events[i], entity, ground),
    ensures
        contact_after(entity, ground, touching, events) == touching,
    decreases events.len(),
{
    if events.len() > 0 {
        lemma_foot_off_ground_events_keep_contact(entity, ground, touching, events.drop_last());
    }
}

/// The ground contact of a foot is decided by its last collision with the
/// ground: touching after a start, not touching after a stop.
pub proof fn lemma_last_ground_event_decides_contact(
    entity: u64,
    ground: u64,
    touching: bool,
    events: Seq<CollisionEvent>,
    last: int,
)
    requires
        0 <= last < events.len(),
        pairs_with_ground(events[last], entity, ground),
        forall|i: int| last < i < events.len() ==> !pairs_with_ground(#[trigger] events[i], entity, ground),
    ensures
        contact_after(entity, ground, touching, events) == (events[last].kind
            == CollisionKind::Started),
    decreases events.len(),
{
    if last < events.len() - 1 {
        lemma_last_ground_event_decides_contact(entity, ground, touching, events.drop_last(), last);
    }
}

/// A collision reports its two parties in no particular order: swapping them
/// in every event changes no foot's contact.
pub proof fn lemma_party_order_irrelevant(
    entity: u64,
    ground: u64,
    touching: bool,
    events: Seq<CollisionEvent>,
)
    ensures
        contact_after(entity, ground, touching, events) == contact_after(
            entity,
            ground,
            touching,
            events.map_values(
                |ev: CollisionEvent| CollisionEvent { kind: ev.kind, first: ev.second, second: ev.first },
            ),
        ),
    decreases events.len(),
{
    let swapped = events.map_values(
        |ev: CollisionEvent| CollisionEvent { kind: ev.kind, first: ev.second, second: ev.first },
    );
    if events.len() > 0 {
        lemma_party_order_irrelevant(entity, ground, touching, events.drop_last());
        assert(swapped.drop_last() =~= events.drop_last().map_values(
            |ev: CollisionEvent| CollisionEvent { kind: ev.kind, first: ev.second, second: ev.first },
        ));
        assert(swapped.last() == CollisionEvent {
            kind: events.last().kind,
            first: events.last().second,
            second: events.last().first,
        });
    }
}

/// A start between a foot and the ground, with either party named first, puts
/// the foot on the ground; a stop takes it off.
pub proof fn lemma_ground_event_sets_contact(
    entity: u64,
    ground: u64,
    touching: bool,
    events: Seq<CollisionEvent>,
    kind: CollisionKind,
)
    ensures
        contact_after(
            entity,
            ground,
            touching,
            events.push(CollisionEvent { kind, first: ground, second: entity }),
        ) == (kind == CollisionKind::Started),
        contact_after(
            entity,
            ground,
            touching,
            events.push(CollisionEvent { kind, first: entity, second: ground }),
        ) == (kind == CollisionKind::Started),
{
    assert(events.push(CollisionEvent { kind, first: ground, second: entity }).drop_last()
        =~= events);
    assert(events.push(CollisionEvent { kind, first: entity, second: ground }).drop_last()
        =~= events);
}

/// Handling a batch of events in two frames gives the same contact state as
/// handling the whole batch in one.
pub proof fn lemma_contact_frames_compose(
    entity: u64,
    ground: u64,
    touching: bool,
    earlier: Seq<CollisionEvent>,
    later: Seq<CollisionEvent>,
)
    ensures
        contact_after(entity, ground, touching, earlier + later) == contact_after(
            entity,
            ground,
            contact_after(entity, ground, touching, earlier),
            later,
        ),
    decreases later.len(),
{
    if later.len() == 0 {
        assert(earlier + later =~= earlier);
    } else {
        lemma_contact_frames_compose(entity, ground, touching, earlier, later.drop_last());
        assert((earlier + later).drop_last() =~= earlier + later.drop_last());
        assert((earlier + later).last() == later.last());
    }
}

} // verus!
