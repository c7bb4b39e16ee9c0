use vstd::prelude::*;
use crate::defs::{ActiveSkill, ActiveSkillGroup, ActiveSkillId, BasePower, SkillKind};
use crate::game::{CharaId, EffectCall, Game, LogEntry, same_world};
use crate::rng::gen_range_u64;

verus! {

/// The product of two 16-bit values stays well below the 64-bit limit.
proof fn lemma_u16_mul_fits(a: u16, b: u16)
    ensures
        a * b <= 0xffff * 0xffff,
{
    assert(a * b <= 0xffff * 0xffff) by (nonlinear_arith)
        requires
            a <= 0xffff,
            b <= 0xffff,
    ;
}

/// The product of two 32-bit values stays within the 64-bit limit.
proof fn lemma_u32_mul_fits(a: u32, b: u32)
    ensures
        a * b <= 0xffffffff * 0xffffffff,
{
    assert(a * b <= 0xffffffff * 0xffffffff) by (nonlinear_arith)
        requires
            a <= 0xffffffff,
            b <= 0xffffffff,
    ;
}

/// The magnitude a skill definition yields for an actor: a configured
/// constant, or the actor's magic-device level times its
/// intelligence. A custom routine is a configuration error and is
/// ruled out by the callers.
pub open spec fn spec_calc_power(g: Game, s: ActiveSkill, cid: int) -> int {
    match s.power_calc {
        crate::defs::PowerCalcMethod::Num(n) => n as int,
        crate::defs::PowerCalcMethod::Magic => g.charas@[cid].spec_skill_level(
            SkillKind::MagicDevice,
        ) * g.charas@[cid].attr.intelligence,
        crate::defs::PowerCalcMethod::Custom(_) => 0,
    }
}

/// Computes a skill's power for an actor.
pub fn calc_power(gd: &Game, active_skill: &ActiveSkill, cid: CharaId) -> (r: u32)
    requires
        cid < gd.charas@.len(),
        !(active_skill.power_calc is Custom),
    ensures
        r == spec_calc_power(*gd, *active_skill, cid as int),
{
    match &active_skill.power_calc {
        crate::defs::PowerCalcMethod::Num(n) => *n,
        crate::defs::PowerCalcMethod::Magic => {
            let chara = &gd.charas[cid];
            let skill_level = chara.skill_level(SkillKind::MagicDevice);
            let intelligence = chara.attr.intelligence;
            proof {
                lemma_u16_mul_fits(skill_level, intelligence);
            }
            (skill_level as u32) * (intelligence as u32)
        },
        crate::defs::PowerCalcMethod::Custom(_) => {
            proof {
                assert(false);
            }
            0
        },
    }
}

/// Resolve a skill use of an actor against a target. Returns true
/// exactly when the skill was performed: the target must be visible,
/// the skill known, and the actor able to act and to afford it; then
/// one log entry naming the skill's group is emitted and one effect
/// application is queued. An unknown skill leaves a warning in the
/// log; every other failure is silent; no failure mutates anything
/// else.
pub fn use_active_skill(
    game: &mut Game,
    active_skill_id: &ActiveSkillId,
    cid: CharaId,
    target: CharaId,
    target_visible: bool,
) -> (r: bool)
    requires
        old(game).wf(),
        cid < old(game).charas@.len(),
        ({
            let sk = old(game).rules.active_skills.spec_get(active_skill_id.0@);
            (target_visible && sk is Some && old(game).charas@[cid as int].spec_active_skill_available(
                sk->Some_0,
            )) ==> !(sk->Some_0.power_calc is Custom)
        }),
    ensures
        final(game).wf(),
        same_world(*final(game), *old(game)),
        final(game).state == old(game).state,
        final(game).anim_queue == old(game).anim_queue,
        final(game).sound_queue == old(game).sound_queue,
        ({
            let sk = old(game).rules.active_skills.spec_get(active_skill_id.0@);
            if !target_visible {
                &&& !r
                &&& final(game).log == old(game).log
                &&& final(game).effect_queue == old(game).effect_queue
            } else if sk is None {
                &&& !r
                &&& final(game).log@ == old(game).log@.push(
                    LogEntry::UnknownActiveSkill { active_skill: *active_skill_id },
                )
                &&& final(game).effect_queue == old(game).effect_queue
            } else if !old(game).charas@[cid as int].spec_active_skill_available(sk->Some_0) {
                &&& !r
                &&& final(game).log == old(game).log
                &&& final(game).effect_queue == old(game).effect_queue
            } else {
                let s = sk->Some_0;
                &&& r
                &&& final(game).log@ == old(game).log@.push(
                    match s.group {
                        ActiveSkillGroup::Magic => LogEntry::UseActiveSkillMagic {
                            chara: cid,
                            active_skill: *active_skill_id,
                        },
                        ActiveSkillGroup::Special => LogEntry::UseActiveSkillSpecial {
                            chara: cid,
                            active_skill: *active_skill_id,
                        },
                    },
                )
                &&& final(game).effect_queue@ == old(game).effect_queue@.push(
                    (EffectCall {
                        effect: s.effect,
                        source: Some(cid),
                        target,
                        power: (spec_calc_power(*old(game), s, cid as int) * s.power) as u64,
                        hit_power: s.hit_power,
                    }),
                )
            }
        }),
{
    if !target_visible {
        return false;
    }

    let found = game.rules.active_skills.get(active_skill_id);
    let active_skill = match found {
        Some(s) => s,
        None => {
            game.log.push(LogEntry::UnknownActiveSkill { active_skill: active_skill_id.clone() });
            return false;
        },
    };

    let chara = &game.charas[cid];
    if !chara.active_skill_available(active_skill) {
        return false;
    }

    let base = calc_power(game, active_skill, cid);
    proof {
        lemma_u32_mul_fits(base, active_skill.power);
    }
    let power: u64 = (base as u64) * (active_skill.power as u64);
    let hit_power = active_skill.hit_power;

    let entry = match active_skill.group {
        ActiveSkillGroup::Magic => LogEntry::UseActiveSkillMagic {
            chara: cid,
            active_skill: active_skill_id.clone(),
        },
        ActiveSkillGroup::Special => LogEntry::UseActiveSkillSpecial {
            chara: cid,
            active_skill: active_skill_id.clone(),
        },
    };
    let call = EffectCall {
        effect: active_skill.effect,
        source: Some(cid),
        target,
        power,
        hit_power,
    };
    game.log.push(entry);
    game.effect_queue.push(call);
    true
}

impl BasePower {
    /// Lower end of the sampled range: base and variance are both
    /// scaled by the factor, and the range is clamped at zero.
    pub open spec fn spec_min(self, factor: u16) -> int {
        if self.1 * factor >= self.0 * factor {
            0
        } else {
            self.0 * factor - self.1 * factor
        }
    }

    /// Upper end of the sampled range.
    pub open spec fn spec_max(self, factor: u16) -> int {
        self.0 * factor + self.1 * factor
    }

    /// Sample a power value in `[spec_min, spec_max)`, uniformly when
    /// the range is non-degenerate; a degenerate range (max <= min)
    /// yields the minimum deterministically, without drawing from the
    /// random source.
    pub fn calc(&self, factor: u16) -> (r: u64)
        ensures
            self.spec_max(factor) > self.spec_min(factor) ==> self.spec_min(factor) <= r
                < self.spec_max(factor),
            self.spec_max(factor) <= self.spec_min(factor) ==> r == self.spec_min(factor),
    {
        proof {
            lemma_u16_mul_fits(self.0, factor);
            lemma_u16_mul_fits(self.1, factor);
        }
        let base_power: u64 = (self.0 as u64) * (factor as u64);
        let power_var: u64 = (self.1 as u64) * (factor as u64);
        let power_min: u64 = if base_power >= power_var {
            base_power - power_var
        } else {
            0
        };
        let power_max: u64 = base_power + power_var;
        if power_max > power_min {
            gen_range_u64(power_min, power_max)
        } else {
            power_min
        }
    }

    /// The base power scaled by the factor, ignoring the variance.
    pub fn calc_without_var(&self, factor: u16) -> (r: u64)
        ensures
            r == self.0 * factor,
    {
        proof {
            lemma_u16_mul_fits(self.0, factor);
        }
        (self.0 as u64) * (factor as u64)
    }
}

} // verus!
