//! Accessors over the process-wide configuration: each reports a missing
//! configuration as the error owed for the affected request.

use vstd::prelude::*;

use crate::errors::CouncilError;
use crate::schema::{member_like, members_like, ConfigStore, CouncilMember};

verus! {

/// Returns the chairman from the configuration, or a missing-configuration
/// error when none was stored.
pub fn get_council_chairman(store: &ConfigStore) -> (r: Result<CouncilMember, CouncilError>)
    ensures
        store.params matches Some(p) ==> (r matches Ok(m) && member_like(m, p.council_chairman)),
        store.params is None ==> (r matches Err(e) && (e matches CouncilError::ConfigurationMissing {
            parameter,
        } && parameter@ == "council_chairman"@)),
{
    match &store.params {
        Some(p) => Ok(p.council_chairman.clone()),
        None => Err(
            CouncilError::ConfigurationMissing {
                parameter: String::from_str("council_chairman"),
            },
        ),
    }
}

/// Returns the member list from the configuration, or a
/// missing-configuration error when none was stored.
pub fn get_council_members(store: &ConfigStore) -> (r: Result<Vec<CouncilMember>, CouncilError>)
    ensures
        store.params matches Some(p) ==> (r matches Ok(v) && members_like(
            v@,
            p.council_members@,
        )),
        store.params is None ==> (r matches Err(e) && (e matches CouncilError::ConfigurationMissing {
            parameter,
        } && parameter@ == "council_members"@)),
{
    match &store.params {
        Some(p) => {
            let v = p.council_members.clone();
            proof {
                assert forall|i: int| 0 <= i < v@.len() implies member_like(
                    #[trigger] v@[i],
                    p.council_members@[i],
                ) by {
                    assert(cloned(p.council_members@[i], v@[i]));
                }
            }
            Ok(v)
        },
        None => Err(
            CouncilError::ConfigurationMissing {
                parameter: String::from_str("council_members"),
            },
        ),
    }
}

/// Returns the document-store base URL from the configuration, or a
/// missing-configuration error when none was stored.
pub fn get_document_store_url(store: &ConfigStore) -> (r: Result<String, CouncilError>)
    ensures
        store.params matches Some(p) ==> (r matches Ok(u) && u@ == p.document_service_url@),
        store.params is None ==> (r matches Err(e) && (e matches CouncilError::ConfigurationMissing {
            parameter,
        } && parameter@ == "document_service_url"@)),
{
    match &store.params {
        Some(p) => Ok(p.document_service_url.clone()),
        None => Err(
            CouncilError::ConfigurationMissing {
                parameter: String::from_str("document_service_url"),
            },
        ),
    }
}

} // verus!
