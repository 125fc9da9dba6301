//! Workspace identity discovery.
//!
//! The execution environment is identified by a `"Workspace"` tag on the
//! local compute instance. Discovery queries the compute inventory for that
//! instance (retrying transient provider failures under a bounded policy) and
//! then resolves the workspace identity from the reply: the first
//! reservation's first instance must carry a tag whose key is `"Workspace"`,
//! and that tag's value is the workspace identity. Every other shape of reply
//! is an unrecoverable initialization failure — the caller is expected to
//! terminate on it, since nothing downstream can run without a workspace.
//!
//! The inventory query itself is a network call and is made by the caller;
//! the functions here take its replies as plain values.

use vstd::prelude::*;

use crate::retry::{failures_before, run_retry, RetryPolicy};

verus! {

/// One key/value tag on a compute instance, either side possibly absent, as
/// inventory providers report them.
#[derive(Debug)]
pub struct Tag {
    pub key: Option<String>,
    pub value: Option<String>,
}

/// One compute instance of an inventory reply: just its tag set.
#[derive(Debug)]
pub struct Instance {
    pub tags: Option<Vec<Tag>>,
}

/// One reservation of an inventory reply: the instances it holds.
#[derive(Debug)]
pub struct Reservation {
    pub instances: Option<Vec<Instance>>,
}

/// A compute inventory reply for a single-instance query.
#[derive(Debug)]
pub struct InventoryResponse {
    pub reservations: Option<Vec<Reservation>>,
}

/// Why workspace discovery failed. Every variant is unrecoverable: the
/// environment is misconfigured or unreachable, and the caller terminates.
#[derive(Debug, PartialEq, Eq)]
pub enum WorkspaceError {
    /// The reply carried no reservation.
    NoReservations,
    /// The first reservation carried no instance.
    NoInstances,
    /// The first instance carried no tag set at all.
    NoTags,
    /// A `"Workspace"` tag was found but carried no value.
    MissingTagValue,
    /// The tag set holds no tag whose key is `"Workspace"`.
    NoWorkspaceTag,
    /// Every inventory query failed; holds the last provider error.
    QueriesExhausted(String),
}

/// Whether a tag's key is the workspace marker `"Workspace"`.
pub open spec fn is_workspace_key(t: Tag) -> bool {
    t.key is Some && t.key->0@ == "Workspace"@
}

/// No tag before index `k` carries the workspace key.
pub open spec fn no_workspace_key_before(tags: Seq<Tag>, k: int) -> bool {
    forall|i: int| 0 <= i < k ==> !is_workspace_key(tags[i])
}

/// The first tag whose key is `"Workspace"`, if any.
pub open spec fn first_workspace_tag(tags: Seq<Tag>) -> Option<Tag>
    decreases tags.len(),
{
    if tags.len() == 0 {
        None
    } else if is_workspace_key(tags[0]) {
        Some(tags[0])
    } else {
        first_workspace_tag(tags.drop_first())
    }
}

/// What resolution returns on a given inventory reply: the value of the
/// first reservation's first instance's first `"Workspace"` tag, or the
/// unrecoverable failure that the reply's shape forces.
pub open spec fn spec_resolve(r: InventoryResponse) -> Result<Seq<char>, WorkspaceError> {
    if !(r.reservations is Some) || r.reservations->0@.len() == 0 {
        Err(WorkspaceError::NoReservations)
    } else {
        let reservation = r.reservations->0@[0];
        if !(reservation.instances is Some) || reservation.instances->0@.len() == 0 {
            Err(WorkspaceError::NoInstances)
        } else {
            let instance = reservation.instances->0@[0];
            if !(instance.tags is Some) {
                Err(WorkspaceError::NoTags)
            } else {
                match first_workspace_tag(instance.tags->0@) {
                    Option::None => Err(WorkspaceError::NoWorkspaceTag),
                    Option::Some(t) => if t.value is Some {
                        Ok(t.value->0@)
                    } else {
                        Err(WorkspaceError::MissingTagValue)
                    },
                }
            }
        }
    }
}

/// Skipping tags without the workspace key does not change which tag is
/// found first.
proof fn lemma_first_workspace_tag_skip(tags: Seq<Tag>, k: int)
    requires
        0 <= k <= tags.len(),
        no_workspace_key_before(tags, k),
    ensures
        first_workspace_tag(tags) == first_workspace_tag(tags.skip(k)),
    decreases k,
{
    if k == 0 {
        assert(tags.skip(0) =~= tags);
    } else {
        assert(!is_workspace_key(tags[0]));
        lemma_first_workspace_tag_skip(tags.drop_first(), k - 1);
        assert(tags.drop_first().skip(k - 1) =~= tags.skip(k));
    }
}

/// Resolves the workspace identity from one inventory reply, as
/// [`spec_resolve`] says: the value of the first `"Workspace"` tag of the
/// first reservation's first instance, or the failure the reply forces.
#[verifier::loop_isolation(false)]
pub fn resolve_workspace(response: &InventoryResponse) -> (r: Result<String, WorkspaceError>)
    ensures
        r is Ok <==> spec_resolve(*response) is Ok,
        r is Ok ==> r->Ok_0@ == spec_resolve(*response)->Ok_0,
        r is Err ==> r->Err_0 == spec_resolve(*response)->Err_0,
{
    let reservations = match &response.reservations {
        Option::Some(rs) => rs,
        Option::None => {
            return Err(WorkspaceError::NoReservations);
        },
    };
    if reservations.len() == 0 {
        return Err(WorkspaceError::NoReservations);
    }
    let instances = match &reservations[0].instances {
        Option::Some(is) => is,
        Option::None => {
            return Err(WorkspaceError::NoInstances);
        },
    };
    if instances.len() == 0 {
        return Err(WorkspaceError::NoInstances);
    }
    let tags = match &instances[0].tags {
        Option::Some(ts) => ts,
        Option::None => {
            return Err(WorkspaceError::NoTags);
        },
    };
    let workspace_key: String = "Workspace".to_owned();
    let n: usize = tags.len();
    let mut j: usize = 0;
    while j < n
        invariant
            n == tags@.len(),
            j <= n,
            workspace_key@ == "Workspace"@,
            no_workspace_key_before(tags@, j as int),
        decreases n - j,
    {
        let tag = &tags[j];
        let key_matches = match &tag.key {
            Option::Some(k) => *k == workspace_key,
            Option::None => false,
        };
        if key_matches {
            proof {
                assert(is_workspace_key(tags@[j as int]));
                lemma_first_workspace_tag_skip(tags@, j as int);
                assert(tags@.skip(j as int)[0] == tags@[j as int]);
                assert(first_workspace_tag(tags@) == Some(tags@[j as int]));
            }
            match &tag.value {
                Option::Some(v) => {
                    return Ok(v.clone());
                },
                Option::None => {
                    return Err(WorkspaceError::MissingTagValue);
                },
            }
        }
        proof {
            assert(!is_workspace_key(tags@[j as int]));
        }
        j = j + 1;
    }
    proof {
        lemma_first_workspace_tag_skip(tags@, n as int);
        assert(tags@.skip(n as int).len() == 0);
    }
    Err(WorkspaceError::NoWorkspaceTag)
}

/// Discovers the workspace identity: queries compute inventory under
/// `policy` (each attempt's reply given in `queries`; a provider error is
/// retried, any reply at all ends the retrying), then resolves the identity
/// from the reply that came back. Returns how many queries were made and the
/// discovery outcome.
///
/// A resolution failure on a reply is not retried: only provider errors are
/// transient. Exhaustion of the attempt budget yields
/// [`WorkspaceError::QueriesExhausted`] with the last provider error.
pub fn discover_workspace(
    policy: &RetryPolicy,
    queries: &Vec<Result<InventoryResponse, String>>,
) -> (r: (u64, Result<String, WorkspaceError>))
    requires
        policy.wf(),
        policy.max_attempts <= queries@.len(),
    ensures
        1 <= r.0 <= policy.max_attempts,
        failures_before(queries@, r.0 - 1),
        queries@[r.0 - 1] is Ok ==> {
            &&& r.1 is Ok <==> spec_resolve(queries@[r.0 - 1]->Ok_0) is Ok
            &&& r.1 is Ok ==> r.1->Ok_0@ == spec_resolve(queries@[r.0 - 1]->Ok_0)->Ok_0
            &&& r.1 is Err ==> r.1->Err_0 == spec_resolve(queries@[r.0 - 1]->Ok_0)->Err_0
        },
        queries@[r.0 - 1] is Err ==> r.0 == policy.max_attempts && r.1 == Err::<
            String,
            WorkspaceError,
        >(WorkspaceError::QueriesExhausted(queries@[r.0 - 1]->Err_0)),
        forall|k: int|
            0 <= k < policy.max_attempts && queries@[k] is Ok && failures_before(queries@, k)
                ==> r.0 == k + 1,
{
    let (attempts, outcome) = run_retry(policy, queries);
    match outcome {
        Ok(response) => (attempts, resolve_workspace(response)),
        Err(e) => (attempts, Err(WorkspaceError::QueriesExhausted(e.clone()))),
    }
}

} // verus!
