//! The collision resolver: classifies this tick's contact batch and emits
//! the deferred command set for each player–hostile pair.
//!
//! A pair may be reported with either handle first, so both orderings are
//! checked. Each actionable pair yields its own independent command set;
//! pairs of any other role combination yield nothing.

use vstd::prelude::*;
use crate::world::{apply_all_spec, apply_commands, Command, EntityKind, EntityRecord, World};

verus! {

/// A transient record of two entity handles that overlapped this tick.
#[derive(Clone, Copy, Debug, PartialEq, Eq, Structural)]
pub struct CollidedEvent {
    pub entity1: u64,
    pub entity2: u64,
}

/// Role of the first registry entry carrying the handle, if any.
pub open spec fn lookup_spec(registry: Seq<EntityRecord>, handle: u64) -> Option<EntityKind>
    decreases registry.len(),
{
    if registry.len() == 0 {
        None
    } else if registry[0].handle == handle {
        Some(registry[0].kind)
    } else {
        lookup_spec(registry.drop_first(), handle)
    }
}

/// Looks an entity's role up by handle.
pub fn find_entity_kind(registry: &Vec<EntityRecord>, handle: u64) -> (kind: Option<EntityKind>)
    ensures
        kind == lookup_spec(registry@, handle),
{
    let mut i: usize = 0;
    assert(registry@.skip(0) =~= registry@);
    while i < registry.len()
        invariant
            i <= registry.len(),
            lookup_spec(registry@, handle) == lookup_spec(registry@.skip(i as int), handle),
        decreases registry.len() - i,
    {
        assert(registry@.skip(i as int)[0] == registry@[i as int]);
        assert(registry@.skip(i as int).drop_first() =~= registry@.skip(i as int + 1));
        if registry[i].handle == handle {
            return Some(registry[i].kind);
        }
        i = i + 1;
    }
    None
}

/// The command set one resolved player–hostile contact emits, in order:
/// health loss for the owner, brief invulnerability for the player ship, an
/// explosion at the hostile's contact position, and the hostile's removal.
pub open spec fn hit_commands_spec(
    player_owner: u8,
    player_handle: u64,
    ufo_x: int,
    ufo_y: int,
    ufo_handle: u64,
) -> Seq<Command> {
    seq![
        Command::ReduceHealth { owner: player_owner },
        Command::MarkInvulnerable { handle: player_handle },
        Command::SpawnExplosion { x: ufo_x as i32, y: ufo_y as i32 },
        Command::RemoveEntity { handle: ufo_handle },
    ]
}

/// Classification of one contact: only a player–hostile pair, in either
/// reported order, is actionable.
pub open spec fn contact_commands_spec(registry: Seq<EntityRecord>, contact: CollidedEvent)
    -> Seq<Command> {
    match (lookup_spec(registry, contact.entity1), lookup_spec(registry, contact.entity2)) {
        (
            Some(EntityKind::Ufo { x, y }),
            Some(EntityKind::PlayerShip { owner, invulnerable: _ }),
        ) => hit_commands_spec(owner, contact.entity2, x as int, y as int, contact.entity1),
        (
            Some(EntityKind::PlayerShip { owner, invulnerable: _ }),
            Some(EntityKind::Ufo { x, y }),
        ) => hit_commands_spec(owner, contact.entity1, x as int, y as int, contact.entity2),
        _ => Seq::empty(),
    }
}

/// The concatenated command sets of a whole contact batch, in batch order.
pub open spec fn collisions_commands_spec(
    registry: Seq<EntityRecord>,
    contacts: Seq<CollidedEvent>,
) -> Seq<Command>
    decreases contacts.len(),
{
    if contacts.len() == 0 {
        Seq::empty()
    } else {
        collisions_commands_spec(registry, contacts.drop_last())
            + contact_commands_spec(registry, contacts.last())
    }
}

/// Emits the command set of one confirmed player–hostile contact.
pub fn handle_ufo_spaceship_collision(
    player_owner: u8,
    player_entity: u64,
    ufo_x: i32,
    ufo_y: i32,
    ufo_entity: u64,
) -> (commands: Vec<Command>)
    ensures
        commands@ == hit_commands_spec(
            player_owner, player_entity, ufo_x as int, ufo_y as int, ufo_entity),
{
    let mut commands: Vec<Command> = Vec::new();
    commands.push(Command::ReduceHealth { owner: player_owner });
    commands.push(Command::MarkInvulnerable { handle: player_entity });
    commands.push(Command::SpawnExplosion { x: ufo_x, y: ufo_y });
    commands.push(Command::RemoveEntity { handle: ufo_entity });
    assert(commands@ =~= hit_commands_spec(
        player_owner, player_entity, ufo_x as int, ufo_y as int, ufo_entity));
    commands
}

/// Consumes the tick's full contact batch and emits every actionable pair's
/// command set, without mutating any shared state.
pub fn handle_collisions(contacts: &Vec<CollidedEvent>, registry: &Vec<EntityRecord>)
    -> (commands: Vec<Command>)
    ensures
        commands@ == collisions_commands_spec(registry@, contacts@),
{
    let mut commands: Vec<Command> = Vec::new();
    let mut i: usize = 0;
    assert(contacts@.take(0) =~= Seq::<CollidedEvent>::empty());
    while i < contacts.len()
        invariant
            i <= contacts.len(),
            commands@ == collisions_commands_spec(registry@, contacts@.take(i as int)),
        decreases contacts.len() - i,
    {
        let contact = contacts[i];
        assert(contacts@.take(i as int + 1).drop_last() =~= contacts@.take(i as int));
        assert(contacts@.take(i as int + 1).last() == contacts@[i as int]);
        let kind1 = find_entity_kind(registry, contact.entity1);
        let kind2 = find_entity_kind(registry, contact.entity2);
        match (kind1, kind2) {
            (
                Some(EntityKind::Ufo { x, y }),
                Some(EntityKind::PlayerShip { owner, invulnerable: _ }),
            ) => {
                let mut set = handle_ufo_spaceship_collision(
                    owner, contact.entity2, x, y, contact.entity1);
                let ghost before = commands@;
                commands.append(&mut set);
                assert(commands@ =~= before + contact_commands_spec(registry@, contact));
            },
            (
                Some(EntityKind::PlayerShip { owner, invulnerable: _ }),
                Some(EntityKind::Ufo { x, y }),
            ) => {
                let mut set = handle_ufo_spaceship_collision(
                    owner, contact.entity1, x, y, contact.entity2);
                let ghost before = commands@;
                commands.append(&mut set);
                assert(commands@ =~= before + contact_commands_spec(registry@, contact));
            },
            _ => {
                assert(commands@ =~= commands@ + contact_commands_spec(registry@, contact));
            },
        }
        i = i + 1;
    }
    assert(contacts@.take(contacts@.len() as int) =~= contacts@);
    commands
}

/// A contact pair is recognized in both reported orders: swapping the two
/// handles of a contact leaves its emitted command set unchanged, whatever
/// the roles behind the handles.
pub proof fn lemma_contact_order_irrelevant(
    registry: Seq<EntityRecord>,
    contact: CollidedEvent,
)
    ensures
        contact_commands_spec(registry, contact) == contact_commands_spec(
            registry,
            CollidedEvent { entity1: contact.entity2, entity2: contact.entity1 },
        ),
{
}

/// Resolution distributes over concatenation of contact batches: each
/// contact contributes its command set independently of the rest.
pub proof fn lemma_collisions_commands_concat(
    registry: Seq<EntityRecord>,
    a: Seq<CollidedEvent>,
    b: Seq<CollidedEvent>,
)
    ensures
        collisions_commands_spec(registry, a + b)
            == collisions_commands_spec(registry, a) + collisions_commands_spec(registry, b),
    decreases b.len(),
{
    if b.len() == 0 {
        assert(a + b =~= a);
        assert(collisions_commands_spec(registry, a) + collisions_commands_spec(registry, b)
            =~= collisions_commands_spec(registry, a));
    } else {
        lemma_collisions_commands_concat(registry, a, b.drop_last());
        assert((a + b).drop_last() =~= a + b.drop_last());
        assert((a + b).last() == b.last());
        assert(collisions_commands_spec(registry, a)
            + collisions_commands_spec(registry, b.drop_last())
            + contact_commands_spec(registry, b.last())
            =~= collisions_commands_spec(registry, a) + collisions_commands_spec(registry, b));
    }
}

/// The order of the contact batch does not affect the outcome set: swapping
/// two adjacent contacts permutes the emitted commands but leaves their
/// multiset unchanged — and any reordering of the batch is a composition of
/// such swaps.
pub proof fn lemma_batch_order_immaterial(
    registry: Seq<EntityRecord>,
    a: Seq<CollidedEvent>,
    c1: CollidedEvent,
    c2: CollidedEvent,
    b: Seq<CollidedEvent>,
)
    ensures
        collisions_commands_spec(registry, a + seq![c1, c2] + b).to_multiset()
            == collisions_commands_spec(registry, a + seq![c2, c1] + b).to_multiset(),
{
    broadcast use vstd::multiset::group_multiset_axioms;

    let sa = collisions_commands_spec(registry, a);
    let sb = collisions_commands_spec(registry, b);
    let k1 = contact_commands_spec(registry, c1);
    let k2 = contact_commands_spec(registry, c2);
    lemma_collisions_commands_concat(registry, a + seq![c1, c2], b);
    lemma_collisions_commands_concat(registry, a, seq![c1, c2]);
    lemma_collisions_commands_concat(registry, a + seq![c2, c1], b);
    lemma_collisions_commands_concat(registry, a, seq![c2, c1]);
    assert(seq![c1, c2].drop_last() =~= seq![c1]);
    assert(seq![c2, c1].drop_last() =~= seq![c2]);
    assert(seq![c1].drop_last() =~= Seq::<CollidedEvent>::empty());
    assert(seq![c2].drop_last() =~= Seq::<CollidedEvent>::empty());
    assert(collisions_commands_spec(registry, Seq::<CollidedEvent>::empty())
        =~= Seq::<Command>::empty());
    assert(seq![c1].last() == c1 && seq![c2].last() == c2);
    assert(seq![c1, c2].last() == c2 && seq![c2, c1].last() == c1);
    assert(collisions_commands_spec(registry, seq![c1]) =~= k1);
    assert(collisions_commands_spec(registry, seq![c2]) =~= k2);
    assert(collisions_commands_spec(registry, seq![c1, c2]) =~= k1 + k2);
    assert(collisions_commands_spec(registry, seq![c2, c1]) =~= k2 + k1);
    vstd::seq_lib::lemma_multiset_commutative(sa + (k1 + k2), sb);
    vstd::seq_lib::lemma_multiset_commutative(sa, k1 + k2);
    vstd::seq_lib::lemma_multiset_commutative(k1, k2);
    vstd::seq_lib::lemma_multiset_commutative(sa + (k2 + k1), sb);
    vstd::seq_lib::lemma_multiset_commutative(sa, k2 + k1);
    vstd::seq_lib::lemma_multiset_commutative(k2, k1);
    assert(collisions_commands_spec(registry, a + seq![c1, c2] + b).to_multiset()
        =~= collisions_commands_spec(registry, a + seq![c2, c1] + b).to_multiset());
}

/// The collision pass of a tick: resolve, then apply.
pub struct CollisionPlugin;

impl CollisionPlugin {
    /// Resolves the tick's full contact batch against the current registry
    /// and then lets the dispatcher apply the queued commands.
    pub fn update(world: &mut World, contacts: &Vec<CollidedEvent>)
        ensures
            final(world)@ == apply_all_spec(
                old(world)@,
                collisions_commands_spec(old(world)@.registry, contacts@),
            ),
    {
        let commands = handle_collisions(contacts, &world.registry);
        apply_commands(world, &commands);
    }
}

} // verus!
