//! The server context and the request pipeline: matcher, handler invocation,
//! static mounts, and the fallback chain.
//!
//! The context — route table, mount list, configuration — is built once at
//! startup, is immutable afterwards, and is passed explicitly; there is no
//! ambient state. `handle` resolves one request: the route table first, in
//! registration order; then the static mounts, in registration order; and
//! only when nothing matched, the fallback chain — `405` when some pattern
//! matched the path but every guard rejected the method, else the configured
//! `404` response.

use vstd::prelude::*;
use crate::config::{method_not_allowed_model, not_found_model, ServerConfig};
use crate::guard::{eval_guard, guard_accepts, MethodGuard};
use crate::handler::{invoke, invoke_model, DispatchPlan, PlanModel};
use crate::pattern::{bindings, request_segments_cfg, split_request_path, SLASH};
use crate::response::buffered_response;
use crate::table::{
    is_first_match, no_entry_matches, some_pattern_matches, MatchOutcome, RouteTable,
};
use crate::text::{append_bytes, bytes_eq, clone_bytes, seqs_view};

verus! {

/// A static mount: requests whose first segments equal `prefix` and whose
/// method its guard accepts are served from the directory `dir`; directory
/// listing is off unless enabled. A mount whose guard rejects the method is
/// passed over like one whose prefix differs.
pub struct StaticMount {
    pub prefix: Vec<Vec<u8>>,
    pub guard: MethodGuard,
    pub dir: Vec<u8>,
    pub listing_enabled: bool,
}

/// Whether a mount's prefix is a prefix of the path segments and its guard
/// accepts the method.
pub open spec fn mount_matches(m: StaticMount, segs: Seq<Seq<u8>>, method: Seq<u8>) -> bool {
    &&& seqs_view(m.prefix@).len() <= segs.len()
    &&& seqs_view(m.prefix@) == segs.take(seqs_view(m.prefix@).len() as int)
    &&& guard_accepts(m.guard, method)
}

/// Whether `k` is the first mount that matches.
pub open spec fn is_first_mount(
    mounts: Seq<StaticMount>,
    segs: Seq<Seq<u8>>,
    method: Seq<u8>,
    k: int,
) -> bool {
    &&& 0 <= k < mounts.len()
    &&& mount_matches(mounts[k], segs, method)
    &&& forall|j: int| 0 <= j < k ==> !mount_matches(mounts[j], segs, method)
}

/// Whether no mount matches.
pub open spec fn no_mount_matches(
    mounts: Seq<StaticMount>,
    segs: Seq<Seq<u8>>,
    method: Seq<u8>,
) -> bool {
    forall|j: int| 0 <= j < mounts.len() ==> !mount_matches(mounts[j], segs, method)
}

/// The filesystem path a mount serves for the segments under its prefix:
/// the mount directory, then one `/`-prefixed component per segment.
pub open spec fn joined_path(dir: Seq<u8>, rest: Seq<Seq<u8>>) -> Seq<u8>
    decreases rest.len(),
{
    if rest.len() == 0 {
        dir
    } else {
        joined_path(dir + seq![SLASH] + rest[0], rest.skip(1))
    }
}

/// The plan a matching mount yields.
pub open spec fn mount_plan_model(m: StaticMount, segs: Seq<Seq<u8>>) -> PlanModel {
    PlanModel::ServeMount {
        fs_path: joined_path(m.dir@, segs.skip(seqs_view(m.prefix@).len() as int)),
        listing_enabled: m.listing_enabled,
    }
}

/// The server context: table, mounts, configuration. Built at startup,
/// read-only while requests are served, shared without locking.
pub struct ServerContext {
    pub table: RouteTable,
    pub mounts: Vec<StaticMount>,
    pub config: ServerConfig,
}

/// Joins a mount directory and the segments under the prefix into one
/// filesystem path.
fn join_segments(dir: &Vec<u8>, segs: &Vec<Vec<u8>>, from: usize) -> (r: Vec<u8>)
    requires
        from <= segs@.len(),
    ensures
        r@ == joined_path(dir@, seqs_view(segs@).skip(from as int)),
{
    let ghost sv = seqs_view(segs@);
    let mut r = clone_bytes(dir);
    let mut i: usize = from;
    while i < segs.len()
        invariant
            from <= i <= segs@.len(),
            sv == seqs_view(segs@),
            joined_path(r@, sv.skip(i as int)) == joined_path(dir@, sv.skip(from as int)),
        decreases segs@.len() - i,
    {
        let ghost before = r@;
        r.push(SLASH);
        append_bytes(&mut r, &segs[i]);
        proof {
            assert(r@ =~= before + seq![SLASH] + sv[i as int]);
            assert(sv.skip(i as int)[0] == sv[i as int]);
            assert(sv.skip(i as int).skip(1) =~= sv.skip(i + 1 as int));
        }
        i = i + 1;
    }
    proof {
        assert(sv.skip(segs@.len() as int) =~= Seq::<Seq<u8>>::empty());
    }
    r
}

/// Whether a mount matches the request, at run time.
fn mount_matches_exec(m: &StaticMount, segs: &Vec<Vec<u8>>, method: &Vec<u8>) -> (b: bool)
    ensures
        b == mount_matches(*m, seqs_view(segs@), method@),
{
    let ghost sv = seqs_view(segs@);
    let ghost pv = seqs_view(m.prefix@);
    if m.prefix.len() > segs.len() {
        return false;
    }
    if !eval_guard(&m.guard, method) {
        return false;
    }
    let mut i: usize = 0;
    while i < m.prefix.len()
        invariant
            i <= m.prefix@.len() <= segs@.len(),
            sv == seqs_view(segs@),
            pv == seqs_view(m.prefix@),
            forall|k: int| 0 <= k < i ==> pv[k] == sv[k],
        decreases m.prefix@.len() - i,
    {
        if !bytes_eq(&m.prefix[i], &segs[i]) {
            assert(pv[i as int] != sv[i as int]);
            assert(!(pv == sv.take(pv.len() as int))) by {
                assert(sv.take(pv.len() as int)[i as int] == sv[i as int]);
            }
            return false;
        }
        i = i + 1;
    }
    assert(pv =~= sv.take(pv.len() as int));
    true
}

/// Resolves one request to a dispatch plan.
///
/// The route table is consulted first, in registration order; the first
/// entry whose pattern matches and whose guard accepts decides the plan
/// through its handler. Then the mounts, in registration order. When nothing
/// matches, the fallback chain answers: `405` with an empty body when some
/// pattern matched the path but no guard accepted the method, else the
/// configured `404` response.
pub fn handle(ctx: &ServerContext, path: &Vec<u8>, method: &Vec<u8>) -> (plan: DispatchPlan)
    requires
        path@.len() >= 1,
        path@[0] == SLASH,
    ensures
        ({
            let segs = request_segments_cfg(path@, ctx.config.strip_trailing_slash);
            let entries = ctx.table.entries@;
            let mounts = ctx.mounts@;
            &&& forall|i: int|
                is_first_match(entries, segs, method@, i) ==> plan@ == invoke_model(
                    entries[i].handler,
                    method@,
                    bindings(entries[i].pattern@, segs),
                    ctx.config@,
                )
            &&& forall|k: int|
                no_entry_matches(entries, segs, method@) && is_first_mount(
                    mounts,
                    segs,
                    method@,
                    k,
                ) ==> plan@ == mount_plan_model(mounts[k], segs)
            &&& (no_entry_matches(entries, segs, method@) && no_mount_matches(
                mounts,
                segs,
                method@,
            ) && some_pattern_matches(entries, segs)) ==> plan@ == PlanModel::Respond(
                method_not_allowed_model(),
            )
            &&& (no_entry_matches(entries, segs, method@) && no_mount_matches(
                mounts,
                segs,
                method@,
            ) && !some_pattern_matches(entries, segs)) ==> plan@ == PlanModel::Respond(
                not_found_model(ctx.config@),
            )
        }),
{
    let segs = split_request_path(path, ctx.config.strip_trailing_slash);
    let ghost sv = seqs_view(segs@);
    let ghost entries = ctx.table.entries@;
    match ctx.table.match_request(&segs, method) {
        MatchOutcome::Matched { index, params } => {
            let plan = invoke(&ctx.table.entries[index].handler, method, &params, &ctx.config);
            proof {
                assert forall|i: int| is_first_match(entries, sv, method@, i) implies i
                    == index as int by {
                    if i < index as int {
                        assert(!crate::table::entry_matches(entries[i], sv, method@));
                    }
                    if (index as int) < i {
                        assert(!crate::table::entry_matches(entries[index as int], sv, method@));
                    }
                }
            }
            plan
        },
        MatchOutcome::NoMatch { method_rejected } => {
            let ghost mounts = ctx.mounts@;
            let mut k: usize = 0;
            while k < ctx.mounts.len()
                invariant
                    k <= ctx.mounts@.len(),
                    sv == seqs_view(segs@),
                    sv == request_segments_cfg(path@, ctx.config.strip_trailing_slash),
                    mounts == ctx.mounts@,
                    entries == ctx.table.entries@,
                    no_entry_matches(entries, sv, method@),
                    forall|j: int| 0 <= j < k ==> !mount_matches(mounts[j], sv, method@),
                decreases ctx.mounts@.len() - k,
            {
                if mount_matches_exec(&ctx.mounts[k], &segs, method) {
                    let prefix_len = ctx.mounts[k].prefix.len();
                    let fs_path = join_segments(&ctx.mounts[k].dir, &segs, prefix_len);
                    let plan = DispatchPlan::ServeMount {
                        fs_path,
                        listing_enabled: ctx.mounts[k].listing_enabled,
                    };
                    proof {
                        assert(seqs_view(mounts[k as int].prefix@).len() == prefix_len as int);
                        assert(plan@ == mount_plan_model(mounts[k as int], sv));
                        assert forall|j: int| is_first_mount(mounts, sv, method@, j) implies j
                            == k as int by {
                            if j < k as int {
                                assert(!mount_matches(mounts[j], sv, method@));
                            }
                            if (k as int) < j {
                                assert(!mount_matches(mounts[k as int], sv, method@));
                            }
                        }
                        assert forall|i: int|
                            !is_first_match(entries, sv, method@, i) by {
                            if 0 <= i < entries.len() {
                                assert(!crate::table::entry_matches(entries[i], sv, method@));
                            }
                        }
                    }
                    return plan;
                }
                k = k + 1;
            }
            if method_rejected {
                let body: Vec<u8> = Vec::new();
                DispatchPlan::Respond(buffered_response(405, None, body))
            } else {
                DispatchPlan::Respond(
                    buffered_response(
                        404,
                        Some(clone_bytes(&ctx.config.not_found_type)),
                        clone_bytes(&ctx.config.not_found_body),
                    ),
                )
            }
        },
    }
}

} // verus!
