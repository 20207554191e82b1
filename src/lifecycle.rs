use vstd::prelude::*;

use crate::apps::AppRecord;
use crate::error::ServiceError;
use crate::signals::{refreshed, SignalRegistry};

verus! {

/// What an install request does once the conductor has been asked for the id.
#[derive(Debug, Clone, PartialEq, Eq)]
pub enum InstallPlan {
    /// The id is taken: return the existing record, install nothing.
    AlreadyInstalled(AppRecord),
    /// Install the bundle, enable it, and query it again.
    InstallBundle,
}

/// The plan for an install, given the conductor's record for the id.
pub open spec fn install_plan(existing: Option<AppRecord>) -> InstallPlan {
    match existing {
        Some(rec) => InstallPlan::AlreadyInstalled(rec),
        None => InstallPlan::InstallBundle,
    }
}

/// The result of an install that installed and enabled the bundle, given
/// what the conductor reported for the id afterwards.
pub open spec fn install_result(requeried: Option<AppRecord>) -> Result<AppRecord, ServiceError> {
    match requeried {
        Some(rec) => Ok(rec),
        None => Err(ServiceError::AppNotFound),
    }
}

/// The id of an install request, which must be present and non-empty.
pub fn require_app_id(installed_app_id: Option<String>) -> (r: Result<String, ServiceError>)
    ensures
        match installed_app_id {
            Some(id) => if id@.len() > 0 {
                r == Ok::<String, ServiceError>(id)
            } else {
                r == Err::<String, ServiceError>(ServiceError::MissingAppId)
            },
            None => r == Err::<String, ServiceError>(ServiceError::MissingAppId),
        },
{
    match installed_app_id {
        Some(id) => {
            if id.as_str().is_empty() {
                Err(ServiceError::MissingAppId)
            } else {
                Ok(id)
            }
        },
        None => Err(ServiceError::MissingAppId),
    }
}

/// Decides an install: an id that is already installed is returned as it is.
pub fn plan_install(existing: Option<AppRecord>) -> (r: InstallPlan)
    ensures
        r == install_plan(existing),
{
    match existing {
        Some(rec) => InstallPlan::AlreadyInstalled(rec),
        None => InstallPlan::InstallBundle,
    }
}

/// Finishes an install after the bundle was installed and enabled: the signal
/// receivers are refreshed from `fresh` (kept when `fresh` is empty) and the
/// record that the conductor now reports is returned.
pub fn complete_install<R>(
    requeried: Option<AppRecord>,
    signals: &mut SignalRegistry<R>,
    fresh: Vec<R>,
) -> (r: Result<AppRecord, ServiceError>)
    ensures
        r == install_result(requeried),
        final(signals)@ == refreshed(old(signals)@, fresh@),
{
    signals.replace_if_non_empty(fresh);
    match requeried {
        Some(rec) => Ok(rec),
        None => Err(ServiceError::AppNotFound),
    }
}

/// Decides a removal: only an installed application can be removed.
pub fn check_removal(existing: &Option<AppRecord>) -> (r: Result<(), ServiceError>)
    ensures
        r == if existing is Some {
            Ok::<(), ServiceError>(())
        } else {
            Err::<(), ServiceError>(ServiceError::AppNotFound)
        },
{
    match existing {
        Some(_) => Ok(()),
        None => Err(ServiceError::AppNotFound),
    }
}

/// The key that signs on the agent's behalf: the first public key of the key store.
pub fn first_key(public_keys: Vec<Vec<u8>>) -> (r: Result<Vec<u8>, ServiceError>)
    ensures
        public_keys@.len() == 0 ==> r == Err::<Vec<u8>, ServiceError>(
            ServiceError::NoKeysAvailable,
        ),
        public_keys@.len() > 0 ==> r == Ok::<Vec<u8>, ServiceError>(public_keys@[0]),
{
    let mut keys = public_keys;
    if keys.len() == 0 {
        Err(ServiceError::NoKeysAvailable)
    } else {
        Ok(keys.remove(0))
    }
}

/// Installing twice with the same id: the first install returns the record
/// that the conductor reports afterwards; a second install then finds that
/// record, plans no install or enable step, and returns the equal record.
pub proof fn lemma_install_idempotent(requeried: AppRecord)
    ensures
        install_result(Some(requeried)) == Ok::<AppRecord, ServiceError>(requeried),
        install_plan(Some(requeried)) == InstallPlan::AlreadyInstalled(requeried),
{
}

} // verus!
