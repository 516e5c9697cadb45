//! The player's arsenal: the weapons held, which kinds can still drop, and
//! what picking one up does.
use vstd::prelude::*;
use crate::weapon::{spec_all_weapon_types, all_weapon_types, Weapon, WeaponType, MAX_LEVEL, MAX_WEAPONS};

verus! {

/// Whether some weapon of `weapons` is of kind `weapon_type`.
pub open spec fn holds_type(weapons: Seq<Weapon>, weapon_type: WeaponType) -> bool {
    exists|i: int| 0 <= i < weapons.len() && (#[trigger] weapons[i]).weapon_type == weapon_type
}

/// The position of the weapon of kind `weapon_type` in `weapons`.
pub open spec fn position_of(weapons: Seq<Weapon>, weapon_type: WeaponType) -> int {
    choose|i: int| 0 <= i < weapons.len() && (#[trigger] weapons[i]).weapon_type == weapon_type
}

/// The invariant of an arsenal: at most `MAX_WEAPONS` weapons, held or about
/// to be added, every level between 1 and `MAX_LEVEL`, and no kind twice.
pub open spec fn arsenal_wf(weapons: Seq<Weapon>, pending: Seq<WeaponType>) -> bool {
    &&& weapons.len() + pending.len() <= MAX_WEAPONS
    &&& forall|i: int| 0 <= i < weapons.len() ==> 1 <= (#[trigger] weapons[i]).level <= MAX_LEVEL
    &&& forall|i: int, j: int|
        0 <= i < j < weapons.len() ==> (#[trigger] weapons[i]).weapon_type != (#[trigger] weapons[j]).weapon_type
    &&& forall|i: int, j: int| 0 <= i < j < pending.len() ==> #[trigger] pending[i] != #[trigger] pending[j]
    &&& forall|i: int, j: int|
        0 <= i < weapons.len() && 0 <= j < pending.len() ==> (#[trigger] weapons[i]).weapon_type
            != #[trigger] pending[j]
}

/// Whether a drop of `weapon_type` would do anything for the holder of
/// `weapons`: a held weapon that can still level up, or a new kind while a
/// slot is free.
pub open spec fn is_candidate(weapons: Seq<Weapon>, weapon_type: WeaponType) -> bool {
    if holds_type(weapons, weapon_type) {
        weapons[position_of(weapons, weapon_type)].level < MAX_LEVEL
    } else {
        weapons.len() < MAX_WEAPONS
    }
}

/// The kinds that can drop for the holder of `weapons`, in drop order.
pub open spec fn spec_candidates(weapons: Seq<Weapon>) -> Seq<WeaponType> {
    spec_all_weapon_types().filter(|weapon_type: WeaponType| is_candidate(weapons, weapon_type))
}

/// What picking up a weapon did.
#[derive(Clone, Copy, PartialEq, Eq, Debug, Structural)]
pub enum WeaponPickup {
    /// The held weapon of that kind went up to this level.
    LevelUp(u8),
    /// The held weapon of that kind is already at `MAX_LEVEL`.
    AtMaxLevel,
    /// The kind is new and will be added when the frame's pickups are done.
    Added,
    /// The kind is new but every slot is taken.
    NoRoom,
    /// The kind is already being added in this frame.
    AlreadyAdded,
}

/// The effect of picking up `weapon_type`, on the held weapons and on the
/// kinds waiting to be added: `(weapons, pending, outcome)`.
pub open spec fn spec_collect(weapons: Seq<Weapon>, pending: Seq<WeaponType>, weapon_type: WeaponType) -> (
    Seq<Weapon>,
    Seq<WeaponType>,
    WeaponPickup,
) {
    if holds_type(weapons, weapon_type) {
        let i = position_of(weapons, weapon_type);
        if weapons[i].level < MAX_LEVEL {
            let level = (weapons[i].level + 1) as u8;
            (weapons.update(i, Weapon { weapon_type, level }), pending, WeaponPickup::LevelUp(level))
        } else {
            (weapons, pending, WeaponPickup::AtMaxLevel)
        }
    } else if pending.contains(weapon_type) {
        (weapons, pending, WeaponPickup::AlreadyAdded)
    } else if weapons.len() + pending.len() < MAX_WEAPONS {
        (weapons, pending.push(weapon_type), WeaponPickup::Added)
    } else {
        (weapons, pending, WeaponPickup::NoRoom)
    }
}

/// The level-1 weapons of the given kinds.
pub open spec fn new_weapons(kinds: Seq<WeaponType>) -> Seq<Weapon> {
    kinds.map_values(|weapon_type: WeaponType| Weapon { weapon_type, level: 1 })
}

/// Whether no two of `weapons` are of the same kind.
pub open spec fn distinct_types(weapons: Seq<Weapon>) -> bool {
    forall|i: int, j: int|
        0 <= i < j < weapons.len() ==> (#[trigger] weapons[i]).weapon_type != (#[trigger] weapons[j]).weapon_type
}

/// Where the weapon of kind `weapon_type` is in `weapons`, if it is.
fn position_in(weapons: &Vec<Weapon>, weapon_type: WeaponType) -> (found: Option<usize>)
    requires
        distinct_types(weapons@),
    ensures
        found is None <==> !holds_type(weapons@, weapon_type),
        found matches Some(i) ==> i == position_of(weapons@, weapon_type),
{
    let mut i: usize = 0;
    while i < weapons.len()
        invariant
            distinct_types(weapons@),
            i <= weapons.len(),
            forall|j: int| 0 <= j < i ==> (#[trigger] weapons@[j]).weapon_type != weapon_type,
        decreases weapons.len() - i,
    {
        if weapons[i].weapon_type == weapon_type {
            proof {
                let ws = weapons@;
                assert(ws[i as int].weapon_type == weapon_type);
                let p = position_of(ws, weapon_type);
                assert(0 <= p < ws.len() && ws[p].weapon_type == weapon_type);
                if p != i {
                    if p < i {
                        assert(ws[p].weapon_type != ws[i as int].weapon_type);
                    } else {
                        assert(ws[i as int].weapon_type != ws[p].weapon_type);
                    }
                }
            }
            return Some(i);
        }
        i = i + 1;
    }
    None
}

/// The weapons the player holds, and the kinds picked up in the current frame
/// that join them when the frame's pickups are done.
pub struct Arsenal {
    weapons: Vec<Weapon>,
    pending: Vec<WeaponType>,
}

impl Arsenal {
    /// The weapons held, in the order they were obtained.
    pub closed spec fn held(&self) -> Seq<Weapon> {
        self.weapons@
    }

    /// The kinds picked up in this frame that are not held yet.
    pub closed spec fn pending(&self) -> Seq<WeaponType> {
        self.pending@
    }

    /// The arsenal's invariant.
    pub open spec fn wf(&self) -> bool {
        arsenal_wf(self.held(), self.pending())
    }

    /// Every arsenal keeps its invariant.
    #[verifier::type_invariant]
    spec fn keeps_wf(&self) -> bool {
        arsenal_wf(self.weapons@, self.pending@)
    }

    /// The arsenal at the start of a run: a level-1 sword.
    pub fn new() -> (arsenal: Arsenal)
        ensures
            arsenal.wf(),
            arsenal.held() == seq![Weapon { weapon_type: WeaponType::Sword, level: 1 }],
            arsenal.pending() == Seq::<WeaponType>::empty(),
    {
        let mut weapons = Vec::new();
        weapons.push(Weapon::new(WeaponType::Sword));
        let arsenal = Arsenal { weapons, pending: Vec::new() };
        assert(arsenal.held() =~= seq![Weapon { weapon_type: WeaponType::Sword, level: 1 }]);
        arsenal
    }

    /// The weapons held.
    pub fn weapons(&self) -> (weapons: &Vec<Weapon>)
        ensures
            weapons@ == self.held(),
    {
        &self.weapons
    }

    /// How many weapons are held.
    pub fn len(&self) -> (n: usize)
        ensures
            n == self.held().len(),
    {
        self.weapons.len()
    }

    /// Where the weapon of kind `weapon_type` is held, if it is.
    pub fn position(&self, weapon_type: WeaponType) -> (found: Option<usize>)
        ensures
            self.wf(),
            found is None <==> !holds_type(self.held(), weapon_type),
            found matches Some(i) ==> i == position_of(self.held(), weapon_type),
    {
        proof {
            use_type_invariant(self);
        }
        position_in(&self.weapons, weapon_type)
    }

    /// The level of the held weapon of kind `weapon_type`, if one is held.
    pub fn level_of(&self, weapon_type: WeaponType) -> (level: Option<u8>)
        ensures
            self.wf(),
            level is None <==> !holds_type(self.held(), weapon_type),
            level matches Some(l) ==> l == self.held()[position_of(self.held(), weapon_type)].level,
    {
        proof {
            use_type_invariant(self);
        }
        match self.position(weapon_type) {
            Some(i) => Some(self.weapons[i].level),
            None => None,
        }
    }
}

impl Arsenal {
    /// Whether a drop of `weapon_type` would do anything now.
    pub fn is_candidate(&self, weapon_type: WeaponType) -> (candidate: bool)
        ensures
            self.wf(),
            candidate == is_candidate(self.held(), weapon_type),
    {
        proof {
            use_type_invariant(self);
        }
        match self.level_of(weapon_type) {
            Some(level) => level < MAX_LEVEL,
            None => self.weapons.len() < MAX_WEAPONS,
        }
    }

    /// The kinds that can drop: each held weapon below `MAX_LEVEL`, and each
    /// kind not held while a slot is free, in the order of
    /// `all_weapon_types`. With every slot taken no new kind drops.
    pub fn candidates(&self) -> (candidates: Vec<WeaponType>)
        ensures
            self.wf(),
            candidates@ == spec_candidates(self.held()),
    {
        proof {
            use_type_invariant(self);
        }
        let all = all_weapon_types();
        let ghost pred = |weapon_type: WeaponType| is_candidate(self.held(), weapon_type);
        let mut candidates: Vec<WeaponType> = Vec::new();
        let mut i: usize = 0;
        assert(all@.take(0) =~= Seq::<WeaponType>::empty());
        while i < all.len()
            invariant
                self.wf(),
                all@ == spec_all_weapon_types(),
                i <= all.len(),
                pred == (|weapon_type: WeaponType| is_candidate(self.held(), weapon_type)),
                candidates@ == all@.take(i as int).filter(pred),
            decreases all.len() - i,
        {
            let weapon_type = all[i];
            proof {
                all@.take(i as int).lemma_filter_push(weapon_type, pred);
                assert(all@.take(i as int).push(weapon_type) =~= all@.take(i + 1));
            }
            if self.is_candidate(weapon_type) {
                candidates.push(weapon_type);
            }
            i = i + 1;
        }
        assert(all@.take(all.len() as int) =~= all@);
        candidates
    }

    /// Picks up a weapon of kind `weapon_type`. A held weapon goes up one
    /// level unless it is at `MAX_LEVEL`; a new kind is set aside to join the
    /// arsenal when the frame's pickups are done, if a slot is free and it is
    /// not set aside already.
    pub fn collect_weapon(&mut self, weapon_type: WeaponType) -> (outcome: WeaponPickup)
        ensures
            old(self).wf(),
            final(self).wf(),
            (final(self).held(), final(self).pending(), outcome) == spec_collect(
                old(self).held(),
                old(self).pending(),
                weapon_type,
            ),
    {
        proof {
            use_type_invariant(&*self);
        }
        let mut weapons: Vec<Weapon> = Vec::new();
        let mut pending: Vec<WeaponType> = Vec::new();
        std::mem::swap(&mut weapons, &mut self.weapons);
        std::mem::swap(&mut pending, &mut self.pending);
        let outcome = match position_in(&weapons, weapon_type) {
            Some(i) => {
                let level = weapons[i].level;
                if level < MAX_LEVEL {
                    let ghost before = weapons@;
                    weapons.set(i, Weapon { weapon_type, level: level + 1 });
                    proof {
                        let after = weapons@;
                        assert(after =~= before.update(i as int, Weapon { weapon_type, level: (level + 1) as u8 }));
                        assert forall|a: int, b: int| 0 <= a < b < after.len() implies
                            (#[trigger] after[a]).weapon_type != (#[trigger] after[b]).weapon_type by {
                            assert(before[a].weapon_type != before[b].weapon_type);
                        }
                        assert forall|a: int, b: int| 0 <= a < after.len() && 0 <= b < pending@.len() implies
                            (#[trigger] after[a]).weapon_type != #[trigger] pending@[b] by {
                            assert(before[a].weapon_type != pending@[b]);
                        }
                    }
                    WeaponPickup::LevelUp(level + 1)
                } else {
                    WeaponPickup::AtMaxLevel
                }
            },
            None => {
                let mut j: usize = 0;
                let mut already = false;
                while j < pending.len()
                    invariant
                        j <= pending.len(),
                        already <==> exists|k: int| 0 <= k < j && pending@[k] == weapon_type,
                    decreases pending.len() - j,
                {
                    if pending[j] == weapon_type {
                        already = true;
                    }
                    j = j + 1;
                }
                if already {
                    WeaponPickup::AlreadyAdded
                } else if weapons.len() + pending.len() < MAX_WEAPONS {
                    let ghost before = pending@;
                    pending.push(weapon_type);
                    proof {
                        assert(!before.contains(weapon_type));
                        assert(pending@ =~= before.push(weapon_type));
                        let ws = weapons@;
                        assert forall|a: int, b: int| 0 <= a < ws.len() && 0 <= b < pending@.len() implies
                            (#[trigger] ws[a]).weapon_type != #[trigger] pending@[b] by {
                            if b == before.len() {
                                assert(!holds_type(ws, weapon_type));
                                assert(!(0 <= a < ws.len() && ws[a].weapon_type == weapon_type));
                            } else {
                                assert(pending@[b] == before[b]);
                            }
                        }
                        assert forall|a: int, b: int| 0 <= a < b < pending@.len() implies
                            #[trigger] pending@[a] != #[trigger] pending@[b] by {
                            if b == before.len() {
                                assert(pending@[a] == before[a]);
                            } else {
                                assert(pending@[a] == before[a]);
                                assert(pending@[b] == before[b]);
                            }
                        }
                    }
                    WeaponPickup::Added
                } else {
                    WeaponPickup::NoRoom
                }
            },
        };
        *self = Arsenal { weapons, pending };
        outcome
    }

    /// Ends a frame of pickups: the kinds set aside join the held weapons at
    /// level 1, in the order they were picked up, and are returned.
    pub fn finish_pickups(&mut self) -> (added: Vec<WeaponType>)
        ensures
            old(self).wf(),
            final(self).wf(),
            added@ == old(self).pending(),
            final(self).held() == old(self).held() + new_weapons(old(self).pending()),
            final(self).pending() == Seq::<WeaponType>::empty(),
    {
        proof {
            use_type_invariant(&*self);
        }
        let mut added: Vec<WeaponType> = Vec::new();
        let mut weapons: Vec<Weapon> = Vec::new();
        std::mem::swap(&mut weapons, &mut self.weapons);
        std::mem::swap(&mut added, &mut self.pending);
        let ghost before = weapons@;
        let mut i: usize = 0;
        while i < added.len()
            invariant
                arsenal_wf(before, added@),
                i <= added.len(),
                weapons@ == before + new_weapons(added@.take(i as int)),
            decreases added.len() - i,
        {
            weapons.push(Weapon::new(added[i]));
            proof {
                assert(added@.take(i + 1) =~= added@.take(i as int).push(added@[i as int]));
                assert(new_weapons(added@.take(i + 1)) =~= new_weapons(added@.take(i as int)).push(
                    Weapon { weapon_type: added@[i as int], level: 1 },
                ));
            }
            i = i + 1;
        }
        proof {
            assert(added@.take(added.len() as int) =~= added@);
            let ws = weapons@;
            let nw = new_weapons(added@);
            assert forall|a: int, b: int| 0 <= a < b < ws.len() implies
                (#[trigger] ws[a]).weapon_type != (#[trigger] ws[b]).weapon_type by {
                if b < before.len() {
                    assert(ws[a] == before[a] && ws[b] == before[b]);
                } else if a < before.len() {
                    assert(ws[a] == before[a]);
                    assert(ws[b] == nw[b - before.len()]);
                    assert(before[a].weapon_type != added@[b - before.len()]);
                } else {
                    assert(ws[a] == nw[a - before.len()]);
                    assert(ws[b] == nw[b - before.len()]);
                    assert(added@[a - before.len()] != added@[b - before.len()]);
                }
            }
            assert forall|a: int| 0 <= a < ws.len() implies 1 <= (#[trigger] ws[a]).level <= MAX_LEVEL by {
                if a < before.len() {
                    assert(ws[a] == before[a]);
                } else {
                    assert(ws[a] == nw[a - before.len()]);
                }
            }
        }
        *self = Arsenal { weapons, pending: Vec::new() };
        added
    }

    /// The kind and level of every held weapon, in the order held.
    pub fn summary(&self) -> (summary: Vec<(WeaponType, u8)>)
        ensures
            summary@ == self.held().map_values(|w: Weapon| (w.weapon_type, w.level)),
    {
        let mut summary: Vec<(WeaponType, u8)> = Vec::new();
        let mut i: usize = 0;
        while i < self.weapons.len()
            invariant
                i <= self.weapons.len(),
                summary@ == self.held().take(i as int).map_values(|w: Weapon| (w.weapon_type, w.level)),
            decreases self.weapons.len() - i,
        {
            summary.push((self.weapons[i].weapon_type, self.weapons[i].level));
            proof {
                assert(self.held().take(i + 1) =~= self.held().take(i as int).push(self.held()[i as int]));
                assert(summary@ =~= self.held().take(i + 1).map_values(|w: Weapon| (w.weapon_type, w.level)));
            }
            i = i + 1;
        }
        assert(self.held().take(self.weapons.len() as int) =~= self.held());
        summary
    }
}

/// Every weapon kind is among `spec_all_weapon_types`.
proof fn lemma_all_weapon_types_contains(weapon_type: WeaponType)
    ensures
        spec_all_weapon_types().contains(weapon_type),
{
    let all = spec_all_weapon_types();
    match weapon_type {
        WeaponType::Sword => assert(all[0] == weapon_type),
        WeaponType::Bow => assert(all[1] == weapon_type),
        WeaponType::Spear => assert(all[2] == weapon_type),
        WeaponType::Aura => assert(all[3] == weapon_type),
        WeaponType::Bomb => assert(all[4] == weapon_type),
    }
}

/// A kind is among the drop candidates exactly when it satisfies
/// `is_candidate`.
pub proof fn lemma_candidates_contains(weapons: Seq<Weapon>, weapon_type: WeaponType)
    ensures
        spec_candidates(weapons).contains(weapon_type) <==> is_candidate(weapons, weapon_type),
{
    let all = spec_all_weapon_types();
    let pred = |w: WeaponType| is_candidate(weapons, w);
    lemma_all_weapon_types_contains(weapon_type);
    let k = choose|k: int| 0 <= k < all.len() && all[k] == weapon_type;
    if is_candidate(weapons, weapon_type) {
        all.lemma_filter_contains(pred, k);
    }
    if all.filter(pred).contains(weapon_type) {
        let j = choose|j: int| 0 <= j < all.filter(pred).len() && all.filter(pred)[j] == weapon_type;
        all.lemma_filter_pred(pred, j);
    }
}

/// Law: between frames, a weapon kind can drop exactly when picking it up
/// would change the arsenal, by levelling up the held weapon of that kind or
/// by adding it.
pub proof fn lemma_candidate_iff_pickup_helps(arsenal: Arsenal, weapon_type: WeaponType)
    requires
        arsenal.wf(),
        arsenal.pending() == Seq::<WeaponType>::empty(),
    ensures
        spec_candidates(arsenal.held()).contains(weapon_type) <==> ({
            let outcome = spec_collect(arsenal.held(), arsenal.pending(), weapon_type).2;
            outcome is LevelUp || outcome is Added
        }),
{
    lemma_candidates_contains(arsenal.held(), weapon_type);
}

/// Law: a pickup keeps the kinds held and their order, and raises at most the
/// weapon of the picked kind, by exactly one level; no level ever passes
/// `MAX_LEVEL`.
pub proof fn lemma_pickup_raises_one_level(arsenal: Arsenal, weapon_type: WeaponType)
    requires
        arsenal.wf(),
    ensures
        ({
            let (after, pending, outcome) = spec_collect(arsenal.held(), arsenal.pending(), weapon_type);
            &&& arsenal_wf(after, pending)
            &&& after.len() == arsenal.held().len()
            &&& forall|i: int| 0 <= i < after.len() ==> {
                &&& (#[trigger] after[i]).weapon_type == arsenal.held()[i].weapon_type
                &&& after[i].level <= MAX_LEVEL
                &&& if after[i].weapon_type == weapon_type && outcome is LevelUp {
                    after[i].level == arsenal.held()[i].level + 1
                } else {
                    after[i].level == arsenal.held()[i].level
                }
            }
        }),
{
    let ws = arsenal.held();
    if holds_type(ws, weapon_type) {
        let p = position_of(ws, weapon_type);
        assert forall|i: int| 0 <= i < ws.len() && ws[i].weapon_type == weapon_type implies i == p by {
            if i < p {
                assert(ws[i].weapon_type != ws[p].weapon_type);
            } else if p < i {
                assert(ws[p].weapon_type != ws[i].weapon_type);
            }
        }
    }
}

/// Law: a weapon picked up between frames is held once the frame's pickups
/// are done, unless every slot was taken; nothing held before is lost.
pub proof fn lemma_pickup_is_held_after_frame(arsenal: Arsenal, weapon_type: WeaponType)
    requires
        arsenal.wf(),
        arsenal.pending() == Seq::<WeaponType>::empty(),
    ensures
        ({
            let (held, pending, outcome) = spec_collect(arsenal.held(), arsenal.pending(), weapon_type);
            let after = held + new_weapons(pending);
            &&& outcome != WeaponPickup::NoRoom ==> holds_type(after, weapon_type)
            &&& after.len() >= arsenal.held().len()
            &&& forall|i: int|
                0 <= i < arsenal.held().len() ==> (#[trigger] after[i]).weapon_type == arsenal.held()[i].weapon_type
        }),
{
    let ws = arsenal.held();
    let (held, pending, outcome) = spec_collect(ws, arsenal.pending(), weapon_type);
    let after = held + new_weapons(pending);
    if holds_type(ws, weapon_type) {
        let p = position_of(ws, weapon_type);
        assert(after[p].weapon_type == weapon_type);
    } else if outcome == WeaponPickup::Added {
        assert(pending =~= seq![weapon_type]);
        assert(after[ws.len() as int] == new_weapons(pending)[0]);
        assert(after[ws.len() as int].weapon_type == weapon_type);
    }
}

/// Whether the weapon at position `i` of `weapons` is of kind `weapon_type`.
pub open spec fn held_at(weapons: Seq<Weapon>, i: int, weapon_type: WeaponType) -> bool {
    0 <= i < weapons.len() && weapons[i].weapon_type == weapon_type
}

/// Law: which kinds can drop. A kind not held can drop exactly when fewer
/// than `MAX_WEAPONS` weapons are held; a held kind can drop exactly when its
/// weapon is below `MAX_LEVEL`.
pub proof fn lemma_candidates_by_slots_and_levels(weapons: Seq<Weapon>, weapon_type: WeaponType, i: int)
    requires
        distinct_types(weapons),
    ensures
        !holds_type(weapons, weapon_type) ==> (spec_candidates(weapons).contains(weapon_type) <==> weapons.len()
            < MAX_WEAPONS),
        held_at(weapons, i, weapon_type) ==> (spec_candidates(weapons).contains(weapon_type) <==> weapons[i].level
            < MAX_LEVEL),
{
    lemma_candidates_contains(weapons, weapon_type);
    if held_at(weapons, i, weapon_type) {
        lemma_position_is_unique(weapons, weapon_type, i);
    }
}

/// In weapons of distinct kinds, the weapon of a kind is at one position only.
proof fn lemma_position_is_unique(weapons: Seq<Weapon>, weapon_type: WeaponType, i: int)
    requires
        distinct_types(weapons),
        held_at(weapons, i, weapon_type),
    ensures
        holds_type(weapons, weapon_type),
        position_of(weapons, weapon_type) == i,
{
    assert(weapons[i].weapon_type == weapon_type);
    let p = position_of(weapons, weapon_type);
    if p < i {
        assert(weapons[p].weapon_type != weapons[i].weapon_type);
    } else if i < p {
        assert(weapons[i].weapon_type != weapons[p].weapon_type);
    }
}

/// Law: what a pickup does, case by case. The held weapon of the kind, at
/// position `i`, goes up one level unless it is at `MAX_LEVEL`, and nothing
/// else changes. A kind not held is set aside to be added (and is held once
/// the frame's pickups are done) whenever it is not set aside already and
/// the weapons held and set aside are fewer than `MAX_WEAPONS`; otherwise the
/// pickup changes nothing.
pub proof fn lemma_collect_outcomes(
    weapons: Seq<Weapon>,
    pending: Seq<WeaponType>,
    weapon_type: WeaponType,
    i: int,
)
    requires
        arsenal_wf(weapons, pending),
    ensures
        held_at(weapons, i, weapon_type) && weapons[i].level < MAX_LEVEL ==> spec_collect(
            weapons,
            pending,
            weapon_type,
        ) == (
            weapons.update(i, Weapon { weapon_type, level: (weapons[i].level + 1) as u8 }),
            pending,
            WeaponPickup::LevelUp((weapons[i].level + 1) as u8),
        ),
        held_at(weapons, i, weapon_type) && weapons[i].level == MAX_LEVEL ==> spec_collect(
            weapons,
            pending,
            weapon_type,
        ) == (weapons, pending, WeaponPickup::AtMaxLevel),
        !holds_type(weapons, weapon_type) && !pending.contains(weapon_type) && weapons.len() + pending.len()
            < MAX_WEAPONS ==> {
            &&& spec_collect(weapons, pending, weapon_type) == (
                weapons,
                pending.push(weapon_type),
                WeaponPickup::Added,
            )
            &&& holds_type(weapons + new_weapons(pending.push(weapon_type)), weapon_type)
        },
        !holds_type(weapons, weapon_type) && pending.contains(weapon_type) ==> spec_collect(
            weapons,
            pending,
            weapon_type,
        ) == (weapons, pending, WeaponPickup::AlreadyAdded),
        !holds_type(weapons, weapon_type) && !pending.contains(weapon_type) && weapons.len() + pending.len()
            >= MAX_WEAPONS ==> spec_collect(weapons, pending, weapon_type) == (
            weapons,
            pending,
            WeaponPickup::NoRoom,
        ),
{
    if held_at(weapons, i, weapon_type) {
        lemma_position_is_unique(weapons, weapon_type, i);
    }
    if !holds_type(weapons, weapon_type) && !pending.contains(weapon_type) {
        let after = weapons + new_weapons(pending.push(weapon_type));
        let k = weapons.len() + pending.len();
        assert(after[k as int].weapon_type == weapon_type);
    }
}

} // verus!
