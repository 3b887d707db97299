//! The collision detector: the geometric overlap predicate and the four
//! fixed category-pair passes over a frame snapshot.

use vstd::prelude::*;

use crate::objects::{CollidableType, CollisionEvent, GameObject, GameState};

verus! {

/// Squared Euclidean distance between the centers of `a` and `b`.
pub open spec fn dist_sq(a: GameObject, b: GameObject) -> int {
    let dx = a.position.x - b.position.x;
    let dy = a.position.y - b.position.y;
    dx * dx + dy * dy
}

/// Sum of the two radii.
pub open spec fn radii_sum(a: GameObject, b: GameObject) -> int {
    a.radius + b.radius
}

/// The bounding circles of `a` and `b` overlap. The inequality is strict:
/// circles that exactly touch do not overlap. This tie-break is deliberate.
pub open spec fn overlaps(a: GameObject, b: GameObject) -> bool {
    dist_sq(a, b) < radii_sum(a, b) * radii_sum(a, b)
}

/// Decides whether the bounding circles of `a` and `b` overlap, by comparing
/// the squared distance between centers against the squared sum of radii (no
/// square root is taken). Pure and total: any inputs, including zero or
/// negative radii, produce a deterministic boolean.
pub fn is_colliding(a: &GameObject, b: &GameObject) -> (r: bool)
    ensures
        r == overlaps(*a, *b),
{
    let dx = a.position.x as i64 - b.position.x as i64;
    let dy = a.position.y as i64 - b.position.y as i64;
    let rs = a.radius as i64 + b.radius as i64;
    assert(dx * dx <= 0x1_0000_0000_0000_0000 && dx * dx >= 0) by (nonlinear_arith)
        requires
            -0x1_0000_0000 <= dx <= 0x1_0000_0000,
    ;
    assert(dy * dy <= 0x1_0000_0000_0000_0000 && dy * dy >= 0) by (nonlinear_arith)
        requires
            -0x1_0000_0000 <= dy <= 0x1_0000_0000,
    ;
    assert(rs * rs <= 0x1_0000_0000_0000_0000 && rs * rs >= 0) by (nonlinear_arith)
        requires
            -0x1_0000_0000 <= rs <= 0x1_0000_0000,
    ;
    let distance_sq = (dx as i128) * (dx as i128) + (dy as i128) * (dy as i128);
    let radii_sum_sq = (rs as i128) * (rs as i128);
    distance_sq < radii_sum_sq
}

/// The event recording that object `id_a` of category `ta` overlaps object
/// `id_b` of category `tb`.
pub open spec fn make_event(ta: CollidableType, id_a: u32, tb: CollidableType, id_b: u32) -> CollisionEvent {
    CollisionEvent { type_a: ta, id_a, type_b: tb, id_b }
}

/// The events produced by testing one object `a` of category `ta` against
/// each object of `objs` (all of category `tb`), in sequence order.
pub open spec fn events_vs_seq(
    ta: CollidableType,
    a: GameObject,
    tb: CollidableType,
    objs: Seq<GameObject>,
) -> Seq<CollisionEvent>
    decreases objs.len(),
{
    if objs.len() == 0 {
        Seq::empty()
    } else {
        events_vs_seq(ta, a, tb, objs.drop_last()) + (if overlaps(a, objs.last()) {
            seq![make_event(ta, a.id, tb, objs.last().id)]
        } else {
            Seq::empty()
        })
    }
}

/// The events of every object of `sa` (category `ta`) against every object
/// of `sb` (category `tb`): the full cross product, outer iteration over
/// `sa`, inner over `sb`, both in sequence order.
pub open spec fn cross_events(
    ta: CollidableType,
    sa: Seq<GameObject>,
    tb: CollidableType,
    sb: Seq<GameObject>,
) -> Seq<CollisionEvent>
    decreases sa.len(),
{
    if sa.len() == 0 {
        Seq::empty()
    } else {
        cross_events(ta, sa.drop_last(), tb, sb) + events_vs_seq(ta, sa.last(), tb, sb)
    }
}

/// The full event list for one frame: the four fixed category passes,
/// concatenated in their fixed order. No other category pair is ever tested.
pub open spec fn spec_detect(state: GameState) -> Seq<CollisionEvent> {
    cross_events(
        CollidableType::Projectile,
        state.projectiles@,
        CollidableType::Enemy,
        state.enemies@,
    ) + events_vs_seq(CollidableType::Player, state.player, CollidableType::Enemy, state.enemies@)
        + events_vs_seq(
        CollidableType::Player,
        state.player,
        CollidableType::ExperienceOrb,
        state.orbs@,
    ) + events_vs_seq(
        CollidableType::Player,
        state.player,
        CollidableType::TreasureChest,
        state.chests@,
    )
}

/// Extending the tested sequence by one object appends that object's event,
/// if it overlaps `a`, and nothing otherwise.
proof fn lemma_events_vs_seq_step(
    ta: CollidableType,
    a: GameObject,
    tb: CollidableType,
    objs: Seq<GameObject>,
    i: int,
)
    requires
        0 <= i < objs.len(),
    ensures
        events_vs_seq(ta, a, tb, objs.take(i + 1)) == events_vs_seq(ta, a, tb, objs.take(i)) + (
        if overlaps(a, objs[i]) {
            seq![make_event(ta, a.id, tb, objs[i].id)]
        } else {
            Seq::<CollisionEvent>::empty()
        }),
{
    assert(objs.take(i + 1).drop_last() =~= objs.take(i));
    assert(objs.take(i + 1).last() == objs[i]);
}

/// Extending the outer sequence by one object appends that object's whole
/// inner pass.
proof fn lemma_cross_events_step(
    ta: CollidableType,
    sa: Seq<GameObject>,
    tb: CollidableType,
    sb: Seq<GameObject>,
    i: int,
)
    requires
        0 <= i < sa.len(),
    ensures
        cross_events(ta, sa.take(i + 1), tb, sb) == cross_events(ta, sa.take(i), tb, sb)
            + events_vs_seq(ta, sa[i], tb, sb),
{
    assert(sa.take(i + 1).drop_last() =~= sa.take(i));
    assert(sa.take(i + 1).last() == sa[i]);
}

/// Tests `a` against every object of `objs` in order and appends one event
/// per overlap to `results`.
fn push_events_vs_seq(
    ta: CollidableType,
    a: &GameObject,
    tb: CollidableType,
    objs: &Vec<GameObject>,
    results: &mut Vec<CollisionEvent>,
)
    ensures
        final(results)@ == old(results)@ + events_vs_seq(ta, *a, tb, objs@),
{
    let mut j: usize = 0;
    while j < objs.len()
        invariant
            j <= objs.len(),
            results@ == old(results)@ + events_vs_seq(ta, *a, tb, objs@.take(j as int)),
        decreases objs.len() - j,
    {
        if is_colliding(a, &objs[j]) {
            results.push(
                CollisionEvent { type_a: ta, id_a: a.id, type_b: tb, id_b: objs[j].id },
            );
        }
        proof {
            lemma_events_vs_seq_step(ta, *a, tb, objs@, j as int);
        }
        j += 1;
    }
    proof {
        assert(objs@.take(objs@.len() as int) =~= objs@);
    }
}

/// Runs the four fixed collision checks over one frame snapshot and returns
/// the resulting events, in the fixed order: every projectile against every
/// enemy, then the player against every enemy, every orb, and every chest.
/// Each pass emits one event per overlapping pair, in input sequence order,
/// with no deduplication and no early termination.
pub fn detect_collisions(state: &GameState) -> (events: Vec<CollisionEvent>)
    ensures
        events@ == spec_detect(*state),
{
    let mut results: Vec<CollisionEvent> = Vec::new();

    let mut i: usize = 0;
    while i < state.projectiles.len()
        invariant
            i <= state.projectiles.len(),
            results@ == cross_events(
                CollidableType::Projectile,
                state.projectiles@.take(i as int),
                CollidableType::Enemy,
                state.enemies@,
            ),
        decreases state.projectiles.len() - i,
    {
        push_events_vs_seq(
            CollidableType::Projectile,
            &state.projectiles[i],
            CollidableType::Enemy,
            &state.enemies,
            &mut results,
        );
        proof {
            lemma_cross_events_step(
                CollidableType::Projectile,
                state.projectiles@,
                CollidableType::Enemy,
                state.enemies@,
                i as int,
            );
        }
        i += 1;
    }
    proof {
        assert(state.projectiles@.take(state.projectiles@.len() as int) =~= state.projectiles@);
    }

    push_events_vs_seq(
        CollidableType::Player,
        &state.player,
        CollidableType::Enemy,
        &state.enemies,
        &mut results,
    );
    push_events_vs_seq(
        CollidableType::Player,
        &state.player,
        CollidableType::ExperienceOrb,
        &state.orbs,
        &mut results,
    );
    push_events_vs_seq(
        CollidableType::Player,
        &state.player,
        CollidableType::TreasureChest,
        &state.chests,
        &mut results,
    );

    results
}

/// The overlap relation is symmetric: which of the two objects comes first
/// never changes the outcome of the test.
pub proof fn lemma_overlaps_symmetric(a: GameObject, b: GameObject)
    ensures
        overlaps(a, b) == overlaps(b, a),
{
    assert((a.position.x - b.position.x) * (a.position.x - b.position.x) == (b.position.x
        - a.position.x) * (b.position.x - a.position.x)) by (nonlinear_arith);
    assert((a.position.y - b.position.y) * (a.position.y - b.position.y) == (b.position.y
        - a.position.y) * (b.position.y - a.position.y)) by (nonlinear_arith);
}

/// Circles that exactly touch — the squared distance between centers equal
/// to the squared sum of radii — do not overlap: the comparison is strict.
pub proof fn lemma_touching_circles_do_not_overlap(a: GameObject, b: GameObject)
    requires
        dist_sq(a, b) == radii_sum(a, b) * radii_sum(a, b),
    ensures
        !overlaps(a, b),
{
}

/// A pass against no objects, or a cross product with either side empty,
/// produces no events.
pub proof fn lemma_empty_passes(
    ta: CollidableType,
    a: GameObject,
    sa: Seq<GameObject>,
    tb: CollidableType,
    sb: Seq<GameObject>,
)
    ensures
        events_vs_seq(ta, a, tb, Seq::<GameObject>::empty()) == Seq::<CollisionEvent>::empty(),
        sa.len() == 0 ==> cross_events(ta, sa, tb, sb) == Seq::<CollisionEvent>::empty(),
        sb.len() == 0 ==> cross_events(ta, sa, tb, sb) == Seq::<CollisionEvent>::empty(),
    decreases sa.len(),
{
    if sa.len() > 0 && sb.len() == 0 {
        lemma_empty_passes(ta, a, sa.drop_last(), tb, sb);
        assert(cross_events(ta, sa, tb, sb) =~= Seq::<CollisionEvent>::empty());
    }
}

/// When `a` overlaps every object of `objs`, the pass produces exactly one
/// event per object, in the objects' input order.
pub proof fn lemma_all_overlapping(
    ta: CollidableType,
    a: GameObject,
    tb: CollidableType,
    objs: Seq<GameObject>,
)
    requires
        forall|k: int| 0 <= k < objs.len() ==> overlaps(a, objs[k]),
    ensures
        events_vs_seq(ta, a, tb, objs).len() == objs.len(),
        forall|k: int|
            0 <= k < objs.len() ==> events_vs_seq(ta, a, tb, objs)[k] == make_event(
                ta,
                a.id,
                tb,
                objs[k].id,
            ),
    decreases objs.len(),
{
    if objs.len() > 0 {
        assert(forall|k: int| 0 <= k < objs.drop_last().len() ==> overlaps(a, objs.drop_last()[k]));
        lemma_all_overlapping(ta, a, tb, objs.drop_last());
    }
}

/// A cross product whose outer side is a single object reduces to that
/// object's pass against the inner side.
pub proof fn lemma_cross_singleton(
    ta: CollidableType,
    a: GameObject,
    tb: CollidableType,
    sb: Seq<GameObject>,
)
    ensures
        cross_events(ta, seq![a], tb, sb) == events_vs_seq(ta, a, tb, sb),
{
    assert(seq![a].drop_last() =~= Seq::<GameObject>::empty());
    assert(seq![a].last() == a);
    assert(cross_events(ta, Seq::<GameObject>::empty(), tb, sb) == Seq::<CollisionEvent>::empty());
    assert(cross_events(ta, seq![a], tb, sb) == Seq::<CollisionEvent>::empty() + events_vs_seq(
        ta,
        a,
        tb,
        sb,
    ));
    assert(Seq::<CollisionEvent>::empty() + events_vs_seq(ta, a, tb, sb) =~= events_vs_seq(
        ta,
        a,
        tb,
        sb,
    ));
}

/// A single projectile that overlaps all of N enemies yields exactly N
/// projectile-vs-enemy events, one per enemy, in the enemies' input order.
pub proof fn lemma_single_projectile_hits_all(p: GameObject, enemies: Seq<GameObject>)
    requires
        forall|k: int| 0 <= k < enemies.len() ==> overlaps(p, enemies[k]),
    ensures
        cross_events(
            CollidableType::Projectile,
            seq![p],
            CollidableType::Enemy,
            enemies,
        ).len() == enemies.len(),
        forall|k: int|
            0 <= k < enemies.len() ==> cross_events(
                CollidableType::Projectile,
                seq![p],
                CollidableType::Enemy,
                enemies,
            )[k] == make_event(CollidableType::Projectile, p.id, CollidableType::Enemy, enemies[k].id),
{
    lemma_cross_singleton(CollidableType::Projectile, p, CollidableType::Enemy, enemies);
    lemma_all_overlapping(CollidableType::Projectile, p, CollidableType::Enemy, enemies);
}

/// Every event of a one-object pass carries that object's category and id
/// first and the tested sequence's category second.
proof fn lemma_events_vs_seq_types(
    ta: CollidableType,
    a: GameObject,
    tb: CollidableType,
    objs: Seq<GameObject>,
)
    ensures
        forall|k: int|
            0 <= k < events_vs_seq(ta, a, tb, objs).len() ==> (#[trigger] events_vs_seq(
                ta,
                a,
                tb,
                objs,
            )[k]).type_a == ta && events_vs_seq(ta, a, tb, objs)[k].id_a == a.id && events_vs_seq(
                ta,
                a,
                tb,
                objs,
            )[k].type_b == tb,
    decreases objs.len(),
{
    if objs.len() > 0 {
        lemma_events_vs_seq_types(ta, a, tb, objs.drop_last());
    }
}

/// Every event of a cross product carries the outer category first and the
/// inner category second.
proof fn lemma_cross_events_types(
    ta: CollidableType,
    sa: Seq<GameObject>,
    tb: CollidableType,
    sb: Seq<GameObject>,
)
    ensures
        forall|k: int|
            0 <= k < cross_events(ta, sa, tb, sb).len() ==> (#[trigger] cross_events(
                ta,
                sa,
                tb,
                sb,
            )[k]).type_a == ta && cross_events(ta, sa, tb, sb)[k].type_b == tb,
    decreases sa.len(),
{
    if sa.len() > 0 {
        lemma_cross_events_types(ta, sa.drop_last(), tb, sb);
        lemma_events_vs_seq_types(ta, sa.last(), tb, sb);
    }
}

/// Category isolation: every event the detector produces pairs one of the
/// four fixed category combinations — projectile-vs-enemy, player-vs-enemy,
/// player-vs-orb, player-vs-chest. No other pair (enemy-vs-enemy,
/// projectile-vs-player, and so on) ever yields an event, however the
/// objects coincide.
pub proof fn lemma_category_isolation(state: GameState, k: int)
    requires
        0 <= k < spec_detect(state).len(),
    ensures
        ({
            let e = spec_detect(state)[k];
            ||| (e.type_a == CollidableType::Projectile && e.type_b == CollidableType::Enemy)
            ||| (e.type_a == CollidableType::Player && e.type_b == CollidableType::Enemy)
            ||| (e.type_a == CollidableType::Player && e.type_b == CollidableType::ExperienceOrb)
            ||| (e.type_a == CollidableType::Player && e.type_b == CollidableType::TreasureChest)
        }),
{
    lemma_cross_events_types(
        CollidableType::Projectile,
        state.projectiles@,
        CollidableType::Enemy,
        state.enemies@,
    );
    lemma_events_vs_seq_types(
        CollidableType::Player,
        state.player,
        CollidableType::Enemy,
        state.enemies@,
    );
    lemma_events_vs_seq_types(
        CollidableType::Player,
        state.player,
        CollidableType::ExperienceOrb,
        state.orbs@,
    );
    lemma_events_vs_seq_types(
        CollidableType::Player,
        state.player,
        CollidableType::TreasureChest,
        state.chests@,
    );
}

} // verus!
