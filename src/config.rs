//! The deployment's configuration, its global write switch and its
//! human-readable metadata.
use vstd::prelude::*;

use crate::address::Address;
use crate::constants::{CURRENT_SCHEMA_VERSION, MAX_DESCRIPTION_LEN, MAX_FEE_BPS, MAX_TAGS_LEN};
use crate::errors::Unit09Error;
use crate::validators::{
    assert_max_len, assert_required_str, bounded_str_error, outcome, required_str_error,
};

verus! {

/// The value of an optional field after an update: the new one if given.
pub open spec fn updated<T>(given: Option<T>, current: T) -> T {
    match given {
        Some(v) => v,
        None => current,
    }
}

/// Protocol-wide settings, changed only by the admin.
#[derive(Clone, Copy, Debug)]
pub struct Config {
    pub admin: Address,
    pub fee_bps: u16,
    pub max_modules_per_repo: u32,
    pub is_active: bool,
    pub policy_ref: [u8; 32],
    pub schema_version: u8,
    pub created_at: i64,
    pub updated_at: i64,
}

/// The error due to a configuration update, before any field is written.
pub open spec fn config_update_error(
    config: Config,
    signer: Address,
    fee_bps: Option<u16>,
    max_modules_per_repo: Option<u32>,
) -> Option<Unit09Error> {
    if config.admin != signer {
        Some(Unit09Error::InvalidAdmin)
    } else if fee_bps matches Some(f) && f > 10000 {
        Some(Unit09Error::InvalidFeeBps)
    } else if max_modules_per_repo matches Some(m) && m == 0 {
        Some(Unit09Error::ValueOutOfRange)
    } else {
        None
    }
}

/// The configuration after an accepted update: given fields replaced,
/// update time stamped, the rest kept.
pub open spec fn config_after_update(
    config: Config,
    fee_bps: Option<u16>,
    max_modules_per_repo: Option<u32>,
    is_active: Option<bool>,
    policy_ref: Option<[u8; 32]>,
    now: i64,
) -> Config {
    Config {
        fee_bps: updated(fee_bps, config.fee_bps),
        max_modules_per_repo: updated(max_modules_per_repo, config.max_modules_per_repo),
        is_active: updated(is_active, config.is_active),
        policy_ref: updated(policy_ref, config.policy_ref),
        updated_at: now,
        ..config
    }
}

impl Config {
    /// Fee within 0..=10000 basis points and a positive module cap.
    pub open spec fn wf(&self) -> bool {
        self.fee_bps <= 10000 && self.max_modules_per_repo >= 1
    }

    /// A new configuration, active, with the given admin and limits.
    pub fn new(admin: Address, fee_bps: u16, max_modules_per_repo: u32, now: i64) -> (r: Result<
        Config,
        Unit09Error,
    >)
        ensures
            r is Err <==> fee_bps > 10000 || max_modules_per_repo == 0,
            r matches Err(e) ==> e == (if fee_bps > 10000 {
                Unit09Error::InvalidFeeBps
            } else {
                Unit09Error::ValueOutOfRange
            }),
            r matches Ok(c) ==> {
                &&& c.wf()
                &&& c.admin == admin
                &&& c.fee_bps == fee_bps
                &&& c.max_modules_per_repo == max_modules_per_repo
                &&& c.is_active
                &&& c.policy_ref@ == Seq::new(32, |_i: int| 0u8)
                &&& c.schema_version == CURRENT_SCHEMA_VERSION
                &&& c.created_at == now
                &&& c.updated_at == now
            },
    {
        if fee_bps > MAX_FEE_BPS {
            return Err(Unit09Error::InvalidFeeBps);
        }
        if max_modules_per_repo == 0 {
            return Err(Unit09Error::ValueOutOfRange);
        }
        let c = Config {
            admin,
            fee_bps,
            max_modules_per_repo,
            is_active: true,
            policy_ref: [0u8; 32],
            schema_version: CURRENT_SCHEMA_VERSION,
            created_at: now,
            updated_at: now,
        };
        assert(c.policy_ref@ =~= Seq::new(32, |_i: int| 0u8));
        Ok(c)
    }

    /// Fails with `DeploymentInactive` when the deployment is switched off.
    pub fn assert_active(&self) -> (r: Result<(), Unit09Error>)
        ensures
            r == outcome(if self.is_active { None } else { Some(Unit09Error::DeploymentInactive) }),
    {
        if self.is_active {
            Ok(())
        } else {
            Err(Unit09Error::DeploymentInactive)
        }
    }

    /// Fails with `InvalidAdmin` unless `signer` is the admin.
    pub fn assert_admin(&self, signer: &Address) -> (r: Result<(), Unit09Error>)
        ensures
            r == outcome(if self.admin == *signer { None } else { Some(Unit09Error::InvalidAdmin) }),
    {
        if self.admin.same(signer) {
            Ok(())
        } else {
            Err(Unit09Error::InvalidAdmin)
        }
    }

    /// Admin-only update of the given fields; the others keep their value.
    /// Every given value is checked before any field is written.
    pub fn apply_update(
        &mut self,
        signer: &Address,
        fee_bps: Option<u16>,
        max_modules_per_repo: Option<u32>,
        is_active: Option<bool>,
        policy_ref: Option<[u8; 32]>,
        now: i64,
    ) -> (r: Result<(), Unit09Error>)
        ensures
            r == outcome(config_update_error(*old(self), *signer, fee_bps, max_modules_per_repo)),
            r is Err ==> *final(self) == *old(self),
            r is Ok ==> *final(self) == config_after_update(
                *old(self),
                fee_bps,
                max_modules_per_repo,
                is_active,
                policy_ref,
                now,
            ),
            old(self).wf() ==> final(self).wf(),
    {
        self.assert_admin(signer)?;
        if let Some(f) = fee_bps {
            if f > MAX_FEE_BPS {
                return Err(Unit09Error::InvalidFeeBps);
            }
        }
        if let Some(m) = max_modules_per_repo {
            if m == 0 {
                return Err(Unit09Error::ValueOutOfRange);
            }
        }
        if let Some(f) = fee_bps {
            self.fee_bps = f;
        }
        if let Some(m) = max_modules_per_repo {
            self.max_modules_per_repo = m;
        }
        if let Some(a) = is_active {
            self.is_active = a;
        }
        if let Some(p) = policy_ref {
            self.policy_ref = p;
        }
        self.updated_at = now;
        Ok(())
    }
}

/// The global write switch, checked before anything else by every mutation.
#[derive(Clone, Copy, Debug)]
pub struct Lifecycle {
    pub writes_allowed: bool,
    pub updated_at: i64,
}

impl Lifecycle {
    /// A switch that allows writes.
    pub fn new(now: i64) -> (r: Lifecycle)
        ensures
            r.writes_allowed,
            r.updated_at == now,
    {
        Lifecycle { writes_allowed: true, updated_at: now }
    }

    /// Fails with `WritesDisabled` when writes are switched off.
    pub fn assert_writes_allowed(&self) -> (r: Result<(), Unit09Error>)
        ensures
            r == outcome(if self.writes_allowed { None } else { Some(Unit09Error::WritesDisabled) }),
    {
        if self.writes_allowed {
            Ok(())
        } else {
            Err(Unit09Error::WritesDisabled)
        }
    }
}

/// Human-readable description and tags of the whole deployment.
#[derive(Clone, Debug)]
pub struct GlobalMetadata {
    pub description: String,
    pub tags: String,
    pub updated_by: Address,
    pub updated_at: i64,
    pub schema_version: u8,
}

/// The error due to new global metadata, before anything is written.
pub open spec fn metadata_error(description: Seq<char>, tags: Seq<char>) -> Option<Unit09Error> {
    if required_str_error(description, MAX_DESCRIPTION_LEN as nat) is Some {
        required_str_error(description, MAX_DESCRIPTION_LEN as nat)
    } else {
        bounded_str_error(tags, MAX_TAGS_LEN as nat)
    }
}

impl GlobalMetadata {
    /// Metadata holding the given description and tags, checked first.
    pub fn new(description: String, tags: String, updated_by: Address, now: i64) -> (r: Result<
        GlobalMetadata,
        Unit09Error,
    >)
        ensures
            r matches Err(e) ==> metadata_error(description@, tags@) == Some(e),
            r matches Ok(m) ==> {
                &&& metadata_error(description@, tags@) is None
                &&& m.description@ == description@
                &&& m.tags@ == tags@
                &&& m.updated_by == updated_by
                &&& m.updated_at == now
                &&& m.schema_version == CURRENT_SCHEMA_VERSION
            },
    {
        assert_required_str(description.as_str(), MAX_DESCRIPTION_LEN)?;
        assert_max_len(tags.as_str(), MAX_TAGS_LEN)?;
        Ok(GlobalMetadata {
            description,
            tags,
            updated_by,
            updated_at: now,
            schema_version: CURRENT_SCHEMA_VERSION,
        })
    }
}

/// The error due to the two global guards, in the order they are checked:
/// the write switch, then the deployment's activity.
pub open spec fn gate_error(lifecycle: Lifecycle, config: Config) -> Option<Unit09Error> {
    if !lifecycle.writes_allowed {
        Some(Unit09Error::WritesDisabled)
    } else if !config.is_active {
        Some(Unit09Error::DeploymentInactive)
    } else {
        None
    }
}

/// Check the two global guards that precede every registry mutation.
pub fn assert_gate(lifecycle: &Lifecycle, config: &Config) -> (r: Result<(), Unit09Error>)
    ensures
        r == outcome(gate_error(*lifecycle, *config)),
{
    lifecycle.assert_writes_allowed()?;
    config.assert_active()
}

} // verus!
