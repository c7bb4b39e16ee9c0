use vstd::prelude::*;
use crate::chara::{
    Chara, CharaParams, CharaStatus, spec_advance_status, spec_advance_statuses,
    spec_can_act_statuses, spec_clamp_pool, spec_is_expired, spec_is_incapacitating,
    spec_status_remaining,
};
use crate::game::{CharaId, Game, GameState, LogEntry};

verus! {

/// Whether an advanced status collection carries poison.
pub open spec fn spec_poisoned(ss: Seq<CharaStatus>) -> bool {
    exists|i: int| 0 <= i < ss.len() && #[trigger] ss[i] is Poisoned
}

/// Hit points after damage, never below zero.
pub open spec fn spec_damage_hp(hp: int, dmg: int) -> int {
    if hp - dmg < 0 {
        0
    } else {
        hp - dmg
    }
}

/// The resource pools after a character's turn upkeep: poison eats a
/// twentieth of the maximum hit points, and the turn's stamina cost
/// is drained.
pub open spec fn spec_preturn_params(p: CharaParams, poisoned: bool, sp_cons: int) -> CharaParams {
    CharaParams {
        hp: if poisoned {
            spec_damage_hp(p.hp as int, p.max_hp as int / 20) as i32
        } else {
            p.hp
        },
        max_hp: p.max_hp,
        sp: spec_clamp_pool(p.sp - sp_cons) as i32,
        mp: p.mp,
    }
}

/// What the turn start changes on one character.
pub open spec fn spec_chara_preturned(c0: Chara, c1: Chara, sp_cons: int) -> bool {
    let adv = spec_advance_statuses(c0.status@);
    &&& c1.status@ == adv
    &&& c1.attr == c0.attr
    &&& c1.skills == c0.skills
    &&& c1.item_list == c0.item_list
    &&& c1.params == spec_preturn_params(c0.params, spec_poisoned(adv), sp_cons)
}

/// The log entries one character's turn start emits.
pub open spec fn spec_preturn_log(c: Chara, cid: CharaId) -> Seq<LogEntry> {
    let adv = spec_advance_statuses(c.status@);
    (if spec_poisoned(adv) {
        seq![
            LogEntry::PoisonDamage {
                chara: cid,
                damage: (c.params.max_hp as int / 20) as i32,
            },
        ]
    } else {
        Seq::<LogEntry>::empty()
    }) + (if !spec_can_act_statuses(adv) {
        seq![LogEntry::Asleep { chara: cid }]
    } else {
        Seq::<LogEntry>::empty()
    })
}

/// Judges whether this character can act; an incapacitated character
/// gets a log entry naming the cause.
pub fn can_act(chara: &Chara, cid: CharaId, log: &mut Vec<LogEntry>) -> (r: bool)
    ensures
        r == spec_can_act_statuses(chara.status@),
        r ==> final(log)@ == old(log)@,
        !r ==> final(log)@ == old(log)@.push(LogEntry::Asleep { chara: cid }),
{
    let n: usize = chara.status.len();
    let mut i: usize = 0;
    while i < n
        invariant
            n == chara.status@.len(),
            0 <= i <= n,
            log@ == old(log)@,
            forall|j: int| 0 <= j < i ==> !spec_is_incapacitating(#[trigger] chara.status@[j]),
        decreases n - i,
    {
        let asleep = match chara.status[i] {
            CharaStatus::Asleep { .. } => true,
            _ => false,
        };
        if asleep {
            log.push(LogEntry::Asleep { chara: cid });
            return false;
        }
        i = i + 1;
    }
    true
}

/// Runs before a character's turn: its statuses decay and the expired
/// ones are removed, poison is applied, the turn's stamina cost is
/// drained, and the action gate is evaluated.
pub fn preturn(game: &mut Game, cid: CharaId) -> (r: bool)
    requires
        old(game).wf(),
        cid < old(game).charas@.len(),
    ensures
        final(game).wf(),
        final(game).charas@.len() == old(game).charas@.len(),
        forall|j: int|
            0 <= j < old(game).charas@.len() && j != cid ==> final(game).charas@[j] == old(
                game,
            ).charas@[j],
        spec_chara_preturned(
            old(game).charas@[cid as int],
            final(game).charas@[cid as int],
            old(game).rules.sp_consumption as int,
        ),
        r == spec_can_act_statuses(
            spec_advance_statuses(old(game).charas@[cid as int].status@),
        ),
        final(game).log@ == old(game).log@ + spec_preturn_log(
            old(game).charas@[cid as int],
            cid,
        ),
        final(game).map == old(game).map,
        final(game).holder == old(game).holder,
        final(game).rules == old(game).rules,
        final(game).state == old(game).state,
        final(game).player_pos == old(game).player_pos,
        final(game).player_on_entrance == old(game).player_on_entrance,
        final(game).floor == old(game).floor,
        final(game).effect_queue == old(game).effect_queue,
        final(game).anim_queue == old(game).anim_queue,
        final(game).sound_queue == old(game).sound_queue,
{
    let mut c = game.charas.remove(cid);

    // Advance every status by one turn, keeping the survivors in
    // order.
    let n: usize = c.status.len();
    let mut new_status: Vec<CharaStatus> = Vec::new();
    let mut i: usize = 0;
    proof {
        assert(c.status@.skip(0) =~= c.status@);
        assert(new_status@ + spec_advance_statuses(c.status@) =~= spec_advance_statuses(
            c.status@));
    }
    while i < n
        invariant
            n == c.status@.len(),
            0 <= i <= n,
            new_status@ + spec_advance_statuses(c.status@.skip(i as int)) == spec_advance_statuses(
                c.status@,
            ),
        decreases n - i,
    {
        proof {
            assert(c.status@.skip(i as int)[0] == c.status@[i as int]);
            assert(c.status@.skip(i as int).drop_first() =~= c.status@.skip(i as int + 1));
        }
        let ghost prev = new_status@;
        let mut s = c.status[i];
        s.advance_turn();
        if !s.is_expired() {
            new_status.push(s);
            proof {
                assert(new_status@ =~= prev + seq![s]);
                assert((prev + seq![s]) + spec_advance_statuses(c.status@.skip(i as int + 1)) =~= prev
                    + (seq![s] + spec_advance_statuses(c.status@.skip(i as int + 1))));
            }
        } else {
            proof {
                assert(Seq::<CharaStatus>::empty() + spec_advance_statuses(
                    c.status@.skip(i as int + 1)) =~= spec_advance_statuses(
                    c.status@.skip(i as int + 1)));
            }
        }
        i = i + 1;
    }
    proof {
        assert(c.status@.skip(n as int) =~= Seq::<CharaStatus>::empty());
        assert(new_status@ + Seq::<CharaStatus>::empty() =~= new_status@);
    }
    c.status = new_status;

    // Scan the surviving statuses for poison.
    let m: usize = c.status.len();
    let mut poisoned = false;
    let mut j: usize = 0;
    while j < m
        invariant
            m == c.status@.len(),
            0 <= j <= m,
            poisoned == exists|k: int| 0 <= k < j && #[trigger] c.status@[k] is Poisoned,
        decreases m - j,
    {
        let hit = match c.status[j] {
            CharaStatus::Poisoned => true,
            _ => false,
        };
        if hit {
            poisoned = true;
        }
        j = j + 1;
    }

    if poisoned {
        let damage: i32 = c.params.max_hp / 20;
        game.log.push(LogEntry::PoisonDamage { chara: cid, damage });
        c.params.hp = if c.params.hp >= damage {
            c.params.hp - damage
        } else {
            0
        };
    }

    c.add_sp(-game.rules.sp_consumption);
    let r = can_act(&c, cid, &mut game.log);
    game.charas.insert(cid, c);
    proof {
        assert(game.charas@ =~= old(game).charas@.update(cid as int, game.charas@[cid as int]));
        assert(game.log@ =~= old(game).log@ + spec_preturn_log(
            old(game).charas@[cid as int],
            cid,
        ));
    }
    r
}

impl Game {
    /// Advance the turn clock: every character's statuses decay and
    /// expire, its upkeep is applied and its action gate is
    /// evaluated; then the player's turn begins.
    pub fn advance_turn(&mut self)
        requires
            old(self).wf(),
        ensures
            final(self).wf(),
            final(self).state == GameState::PlayerTurn,
            final(self).charas@.len() == old(self).charas@.len(),
            forall|i: int|
                0 <= i < old(self).charas@.len() ==> spec_chara_preturned(
                    old(self).charas@[i],
                    #[trigger] final(self).charas@[i],
                    old(self).rules.sp_consumption as int,
                ),
            final(self).log@ == old(self).log@ + spec_advance_log(old(self).charas@, 0),
            final(self).map == old(self).map,
            final(self).holder == old(self).holder,
            final(self).rules == old(self).rules,
            final(self).player_pos == old(self).player_pos,
            final(self).player_on_entrance == old(self).player_on_entrance,
            final(self).floor == old(self).floor,
            final(self).effect_queue == old(self).effect_queue,
            final(self).anim_queue == old(self).anim_queue,
            final(self).sound_queue == old(self).sound_queue,
    {
        let n: usize = self.charas.len();
        let mut i: usize = 0;
        proof {
            assert(self.log@ + spec_advance_log(self.charas@, 0) =~= old(self).log@
                + spec_advance_log(old(self).charas@, 0));
        }
        while i < n
            invariant
                self.wf(),
                n == self.charas@.len(),
                n == old(self).charas@.len(),
                0 <= i <= n,
                forall|j: int| i <= j < n ==> self.charas@[j] == old(self).charas@[j],
                forall|j: int|
                    0 <= j < i ==> spec_chara_preturned(
                        old(self).charas@[j],
                        #[trigger] self.charas@[j],
                        old(self).rules.sp_consumption as int,
                    ),
                self.log@ + spec_advance_log(old(self).charas@, i as int) == old(self).log@
                    + spec_advance_log(old(self).charas@, 0),
                self.map == old(self).map,
                self.holder == old(self).holder,
                self.rules == old(self).rules,
                self.state == old(self).state,
                self.player_pos == old(self).player_pos,
                self.player_on_entrance == old(self).player_on_entrance,
                self.floor == old(self).floor,
                self.effect_queue == old(self).effect_queue,
                self.anim_queue == old(self).anim_queue,
                self.sound_queue == old(self).sound_queue,
            decreases n - i,
        {
            let ghost log_prev = self.log@;
            let _gate = preturn(self, i);
            proof {
                assert(spec_advance_log(old(self).charas@, i as int) == spec_preturn_log(
                    old(self).charas@[i as int],
                    i,
                ) + spec_advance_log(old(self).charas@, i as int + 1));
                assert((log_prev + spec_preturn_log(old(self).charas@[i as int], i))
                    + spec_advance_log(old(self).charas@, i as int + 1) =~= log_prev + (
                spec_preturn_log(old(self).charas@[i as int], i) + spec_advance_log(
                    old(self).charas@,
                    i as int + 1,
                )));
            }
            i = i + 1;
        }
        proof {
            assert(spec_advance_log(old(self).charas@, n as int) =~= Seq::<LogEntry>::empty());
            assert(self.log@ + Seq::<LogEntry>::empty() =~= self.log@);
        }
        self.state = GameState::PlayerTurn;
    }
}

/// The log entries the turn start emits for the characters from
/// position `i` on.
pub open spec fn spec_advance_log(charas: Seq<Chara>, i: int) -> Seq<LogEntry>
    decreases charas.len() - i,
{
    if i < 0 || i >= charas.len() {
        Seq::empty()
    } else {
        spec_preturn_log(charas[i], i as usize) + spec_advance_log(charas, i + 1)
    }
}

/// Monotonic decay: a ledger advance, and an advance immediately
/// after it, never increase a status's remaining duration.
pub proof fn lemma_status_decay(s: CharaStatus)
    ensures
        spec_status_remaining(spec_advance_status(s)) <= spec_status_remaining(s),
        spec_status_remaining(spec_advance_status(spec_advance_status(s)))
            <= spec_status_remaining(spec_advance_status(s)),
{
}

/// Every status the ledger keeps after an advance is unexpired.
proof fn lemma_advanced_not_expired(ss: Seq<CharaStatus>)
    ensures
        forall|j: int|
            0 <= j < spec_advance_statuses(ss).len() ==> !spec_is_expired(
                #[trigger] spec_advance_statuses(ss)[j],
            ),
    decreases ss.len(),
{
    if ss.len() > 0 {
        lemma_advanced_not_expired(ss.drop_first());
        let a = spec_advance_status(ss[0]);
        let rest = spec_advance_statuses(ss.drop_first());
        assert forall|j: int|
            0 <= j < spec_advance_statuses(ss).len() implies !spec_is_expired(
            #[trigger] spec_advance_statuses(ss)[j],
        ) by {
            if spec_is_expired(a) {
                assert(spec_advance_statuses(ss)[j] == rest[j]);
            } else {
                if j == 0 {
                    assert(spec_advance_statuses(ss)[j] == a);
                } else {
                    assert(spec_advance_statuses(ss)[j] == rest[j - 1]);
                }
            }
        }
    }
}

/// A status with one remaining turn is absent after one more ledger
/// advance: its decayed form is expired, and the ledger keeps no
/// expired status.
pub proof fn lemma_one_turn_status_expires(ss: Seq<CharaStatus>, i: int)
    requires
        0 <= i < ss.len(),
        spec_status_remaining(ss[i]) == 1,
    ensures
        !spec_advance_statuses(ss).contains(spec_advance_status(ss[i])),
{
    lemma_advanced_not_expired(ss);
    assert(spec_is_expired(spec_advance_status(ss[i])));
    if spec_advance_statuses(ss).contains(spec_advance_status(ss[i])) {
        let j = choose|j: int|
            0 <= j < spec_advance_statuses(ss).len() && spec_advance_statuses(ss)[j]
                == spec_advance_status(ss[i]);
        assert(!spec_is_expired(spec_advance_statuses(ss)[j]));
    }
}

/// The action gate depends only on incapacitating statuses: adding
/// none of those never changes the verdict.
pub proof fn lemma_can_act_unaffected(ss: Seq<CharaStatus>, added: Seq<CharaStatus>)
    requires
        forall|i: int| 0 <= i < added.len() ==> !spec_is_incapacitating(#[trigger] added[i]),
    ensures
        spec_can_act_statuses(ss + added) == spec_can_act_statuses(ss),
{
    if spec_can_act_statuses(ss) {
        assert forall|i: int|
            0 <= i < (ss + added).len() implies !spec_is_incapacitating(
            #[trigger] (ss + added)[i],
        ) by {
            if i < ss.len() {
                assert((ss + added)[i] == ss[i]);
            } else {
                assert((ss + added)[i] == added[i - ss.len()]);
            }
        }
    } else {
        let i = choose|i: int| 0 <= i < ss.len() && spec_is_incapacitating(ss[i]);
        assert((ss + added)[i] == ss[i]);
        assert(spec_is_incapacitating((ss + added)[i]));
    }
}

} // verus!
