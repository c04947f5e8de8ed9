//! The membership registry: one record per group, holding the deduplicated,
//! sorted member list, the approval threshold, and the two counters that
//! order proposals (`transaction_index`) and disqualify in-flight proposals
//! after a membership change (`ms_change_index`).

use vstd::prelude::*;

use crate::errors::GraphsError;

verus! {

/// The 16-bit ceiling on the number of members of one group.
pub const MAX_MEMBERS: usize = 0xFFFF;

/// Base size in bytes of a group's durable record, before any member keys.
pub const MS_BASE_SIZE: u64 = 90;

/// Size in bytes of one stored member key.
pub const KEY_SIZE: u64 = 32;

/// Bytes added when a group's durable record is grown: room for ten keys.
pub const GROWTH_INCREMENT: u64 = 320;

/// A sequence of keys in strictly increasing order (hence duplicate-free).
pub open spec fn strictly_sorted(s: Seq<u64>) -> bool {
    forall|i: int, j: int| 0 <= i < j < s.len() ==> s[i] < s[j]
}

/// What any one engine call may do to a registry: the proposal counter never
/// decreases, and the membership-change marker is either left alone or set to
/// the current proposal counter.
pub open spec fn registry_step(pre: Ms, post: Ms) -> bool {
    &&& pre.transaction_index <= post.transaction_index
    &&& (post.ms_change_index == pre.ms_change_index
        || post.ms_change_index == post.transaction_index)
}

/// Law: the sorted, deduplicated key list is a canonical representation -
/// two strictly sorted lists holding the same member set are identical.
pub proof fn lemma_sorted_keys_canonical(a: Seq<u64>, b: Seq<u64>)
    requires
        strictly_sorted(a),
        strictly_sorted(b),
        a.to_set() == b.to_set(),
    ensures
        a == b,
    decreases a.len(),
{
    if a.len() == 0 {
        if b.len() > 0 {
            assert(b.to_set().contains(b[0]));
            assert(a.contains(b[0]));
        }
        assert(a =~= b);
    } else {
        assert(a.to_set().contains(a[0]));
        assert(b.contains(a[0]));
        assert(b.to_set().contains(b[0]));
        assert(a.contains(b[0]));
        let i = choose|i: int| 0 <= i < b.len() && b[i] == a[0];
        let j = choose|j: int| 0 <= j < a.len() && a[j] == b[0];
        assert(a[0] == b[0]) by {
            if i > 0 {
                assert(b[0] < b[i]);
            }
            if j > 0 {
                assert(a[0] < a[j]);
            }
        }
        let at = a.drop_first();
        let bt = b.drop_first();
        assert forall|x: u64| at.to_set().contains(x) <==> bt.to_set().contains(x) by {
            if at.contains(x) {
                let w = choose|w: int| 0 <= w < at.len() && at[w] == x;
                assert(a[w + 1] == x);
                assert(a.contains(x));
                assert(a.to_set().contains(x));
                assert(b.to_set().contains(x));
                assert(a[0] < x);
                assert(b.contains(x));
                let v = choose|v: int| 0 <= v < b.len() && b[v] == x;
                assert(v != 0);
                assert(bt[v - 1] == x);
            }
            if bt.contains(x) {
                let w = choose|w: int| 0 <= w < bt.len() && bt[w] == x;
                assert(b[w + 1] == x);
                assert(b.contains(x));
                assert(b.to_set().contains(x));
                assert(a.to_set().contains(x));
                assert(b[0] < x);
                assert(a.contains(x));
                let v = choose|v: int| 0 <= v < a.len() && a[v] == x;
                assert(v != 0);
                assert(at[v - 1] == x);
            }
        }
        assert(at.to_set() =~= bt.to_set());
        assert(strictly_sorted(at)) by {
            assert forall|p: int, q: int| 0 <= p < q < at.len() implies at[p] < at[q] by {
                assert(at[p] == a[p + 1] && at[q] == a[q + 1]);
            }
        }
        assert(strictly_sorted(bt)) by {
            assert forall|p: int, q: int| 0 <= p < q < bt.len() implies bt[p] < bt[q] by {
                assert(bt[p] == b[p + 1] && bt[q] == b[q + 1]);
            }
        }
        lemma_sorted_keys_canonical(at, bt);
        assert(a =~= b) by {
            assert(a.len() == b.len());
            assert forall|k: int| 0 <= k < a.len() implies a[k] == b[k] by {
                if k > 0 {
                    assert(a[k] == at[k - 1] && b[k] == bt[k - 1]);
                }
            }
        }
    }
}

/// One group's registry record.
#[derive(Clone, Debug)]
pub struct Ms {
    /// Number of distinct member approvals needed to authorize execution.
    pub threshold: u16,
    /// Count of delegated authorities tracked for this group.
    pub authority_index: u16,
    /// Last issued proposal number.
    pub transaction_index: u32,
    /// Last proposal number at or before which membership changed.
    pub ms_change_index: u32,
    /// Principal allowed to perform administrative group changes.
    pub external_authority: u64,
    /// Opaque seed distinguishing this group; proposals refer to it.
    pub create_key: u64,
    /// Whether non-members may trigger execution.
    pub allow_external_execute: bool,
    /// Member principals, sorted and unique.
    pub keys: Vec<u64>,
}

impl Ms {
    /// The registry invariant: at least one member, member count within the
    /// 16-bit ceiling, keys sorted and unique, and a threshold between one
    /// and the member count.
    pub open spec fn wf(self) -> bool {
        &&& strictly_sorted(self.keys@)
        &&& 1 <= self.keys@.len() <= MAX_MEMBERS
        &&& 1 <= self.threshold as int <= self.keys@.len()
    }

    /// The members as a set.
    pub open spec fn member_set(self) -> Set<u64> {
        self.keys@.to_set()
    }

    /// Position of `member` in the sorted key list, if present.
    pub fn is_member(&self, member: u64) -> (r: Option<usize>)
        ensures
            match r {
                Some(i) => i < self.keys@.len() && self.keys@[i as int] == member,
                None => !self.keys@.contains(member),
            },
    {
        let mut i: usize = 0;
        while i < self.keys.len()
            invariant
                i <= self.keys@.len(),
                forall|j: int| 0 <= j < i ==> self.keys@[j] != member,
            decreases self.keys@.len() - i,
        {
            if self.keys[i] == member {
                return Some(i);
            }
            i += 1;
        }
        None
    }
}

/// Inserts `key` into a sorted, duplicate-free key list, keeping it so; a key
/// already present is left alone.
fn insert_key_sorted(keys: &mut Vec<u64>, key: u64)
    requires
        strictly_sorted(old(keys)@),
        old(keys)@.len() < usize::MAX,
    ensures
        strictly_sorted(final(keys)@),
        final(keys)@.to_set() == old(keys)@.to_set().insert(key),
        final(keys)@.len()
            == old(keys)@.len() + (if old(keys)@.contains(key) { 0int } else { 1int }),
{
    let ghost orig = keys@;
    let mut i: usize = 0;
    while i < keys.len() && keys[i] < key
        invariant
            keys@ == orig,
            i <= keys@.len(),
            forall|j: int| 0 <= j < i ==> keys@[j] < key,
        decreases keys@.len() - i,
    {
        i += 1;
    }
    if i < keys.len() && keys[i] == key {
        proof {
            assert(orig.to_set().insert(key) =~= orig.to_set());
        }
        return;
    }
    proof {
        assert(forall|j: int| i <= j < orig.len() ==> orig[j] > key);
        assert(!orig.contains(key));
    }
    keys.insert(i, key);
    proof {
        let post = keys@;
        assert forall|a: int, b: int| 0 <= a < b < post.len() implies post[a] < post[b] by {
            if b < i {
                assert(post[a] == orig[a] && post[b] == orig[b]);
            } else if a > i {
                assert(post[a] == orig[a - 1] && post[b] == orig[b - 1]);
            } else if a < i && b == i {
                assert(post[a] == orig[a] && post[b] == key);
            } else if a == i {
                assert(post[a] == key && post[b] == orig[b - 1]);
            } else {
                assert(a < i && b > i);
                assert(post[a] == orig[a] && post[b] == orig[b - 1]);
            }
        }
        assert forall|x: u64| post.to_set().contains(x) <==> orig.to_set()
            .insert(key)
            .contains(x) by {
            if post.contains(x) {
                let w = choose|w: int| 0 <= w < post.len() && post[w] == x;
                if w < i {
                    assert(orig[w] == x);
                } else if w > i {
                    assert(orig[w - 1] == x);
                }
            }
            if orig.contains(x) {
                let w = choose|w: int| 0 <= w < orig.len() && orig[w] == x;
                if w < i {
                    assert(post[w] == x);
                } else {
                    assert(post[w + 1] == x);
                }
            }
            if x == key {
                assert(post[i as int] == key);
            }
        }
        assert(post.to_set() =~= orig.to_set().insert(key));
    }
}

/// Creates a group: deduplicates and sorts `members`, then validates that the
/// resulting set is non-empty, within the 16-bit ceiling, and consistent with
/// `threshold`. A fresh registry starts with no proposals issued.
pub fn create(
    external_authority: u64,
    threshold: u16,
    create_key: u64,
    members: Vec<u64>,
) -> (r: Result<Ms, GraphsError>)
    ensures
        ({
            let n = members@.to_set().len() as int;
            match r {
                Ok(ms) => {
                    &&& ms.wf()
                    &&& ms.member_set() == members@.to_set()
                    &&& ms.threshold == threshold
                    &&& ms.authority_index == 1
                    &&& ms.transaction_index == 0
                    &&& ms.ms_change_index == 0
                    &&& ms.external_authority == external_authority
                    &&& ms.create_key == create_key
                    &&& !ms.allow_external_execute
                    &&& 1 <= n <= MAX_MEMBERS
                    &&& 1 <= threshold as int <= n
                },
                Err(e) => {
                    &&& (e == GraphsError::EmptyMembers <==> n == 0)
                    &&& (e == GraphsError::MaxMembersReached <==> n > MAX_MEMBERS)
                    &&& (e == GraphsError::InvalidThreshold <==> (1 <= n <= MAX_MEMBERS
                        && (threshold == 0 || threshold as int > n)))
                    &&& (e == GraphsError::EmptyMembers || e == GraphsError::MaxMembersReached
                        || e == GraphsError::InvalidThreshold)
                },
            }
        }),
{
    let mut keys: Vec<u64> = Vec::new();
    let mut i: usize = 0;
    proof {
        assert(keys@.to_set() =~= members@.subrange(0, 0).to_set());
    }
    while i < members.len()
        invariant
            i <= members@.len(),
            strictly_sorted(keys@),
            keys@.to_set() == members@.subrange(0, i as int).to_set(),
            keys@.len() <= i,
        decreases members@.len() - i,
    {
        let ghost pre = keys@;
        insert_key_sorted(&mut keys, members[i]);
        proof {
            let s1 = members@.subrange(0, i + 1);
            let s0 = members@.subrange(0, i as int);
            assert forall|x: u64|
                s1.to_set().contains(x) <==> s0.to_set().insert(members@[i as int]).contains(
                    x,
                ) by {
                if s1.contains(x) {
                    let w = choose|w: int| 0 <= w < s1.len() && s1[w] == x;
                    if w < i {
                        assert(s0[w] == x);
                    } else {
                        assert(x == members@[i as int]);
                    }
                }
                if s0.contains(x) {
                    let w = choose|w: int| 0 <= w < s0.len() && s0[w] == x;
                    assert(s1[w] == x);
                }
                if x == members@[i as int] {
                    assert(s1[i as int] == x);
                }
            }
            assert(s1.to_set() =~= s0.to_set().insert(members@[i as int]));
        }
        i += 1;
    }
    proof {
        assert(members@.subrange(0, members@.len() as int) =~= members@);
        keys@.unique_seq_to_set();
    }
    let total_members = keys.len();
    if total_members < 1 {
        return Err(GraphsError::EmptyMembers);
    }
    if total_members > MAX_MEMBERS {
        return Err(GraphsError::MaxMembersReached);
    }
    if threshold < 1 || threshold as usize > total_members {
        return Err(GraphsError::InvalidThreshold);
    }
    Ok(Ms {
        threshold,
        authority_index: 1,
        transaction_index: 0,
        ms_change_index: 0,
        external_authority,
        create_key,
        allow_external_execute: false,
        keys,
    })
}

/// Adds a member. Only the external authority may; the 16-bit ceiling is
/// enforced before the (idempotent) insertion; the membership-change marker
/// is always bumped to the current proposal counter, disqualifying every
/// in-flight proposal created under the old membership.
pub fn add_member(ms: &mut Ms, acting: u64, new_member: u64) -> (r: Result<(), GraphsError>)
    requires
        old(ms).wf(),
    ensures
        final(ms).wf(),
        registry_step(*old(ms), *final(ms)),
        match r {
            Ok(()) => {
                &&& acting == old(ms).external_authority
                &&& old(ms).keys@.len() < MAX_MEMBERS
                &&& final(ms).member_set() == old(ms).member_set().insert(new_member)
                &&& final(ms).ms_change_index == old(ms).transaction_index
                &&& final(ms).threshold == old(ms).threshold
                &&& final(ms).transaction_index == old(ms).transaction_index
                &&& final(ms).external_authority == old(ms).external_authority
                &&& final(ms).create_key == old(ms).create_key
                &&& final(ms).authority_index == old(ms).authority_index
                &&& final(ms).allow_external_execute == old(ms).allow_external_execute
            },
            Err(e) => {
                &&& *final(ms) == *old(ms)
                &&& (e == GraphsError::InvalidExternalAuthority <==> acting != old(ms).external_authority)
                &&& (e == GraphsError::MaxMembersReached <==> (acting == old(ms).external_authority && old(ms).keys@.len() >= MAX_MEMBERS))
                &&& (e == GraphsError::InvalidExternalAuthority
                    || e == GraphsError::MaxMembersReached)
            },
        },
{
    if acting != ms.external_authority {
        return Err(GraphsError::InvalidExternalAuthority);
    }
    if ms.keys.len() >= MAX_MEMBERS {
        return Err(GraphsError::MaxMembersReached);
    }
    insert_key_sorted(&mut ms.keys, new_member);
    ms.ms_change_index = ms.transaction_index;
    Ok(())
}

/// Removes a member. Removing the sole remaining member fails; if the count
/// drops below the threshold, the threshold is lowered to the new count.
/// Removing a non-member changes no key but still bumps the change marker.
pub fn remove_member(ms: &mut Ms, acting: u64, old_member: u64) -> (r: Result<(), GraphsError>)
    requires
        old(ms).wf(),
    ensures
        final(ms).wf(),
        registry_step(*old(ms), *final(ms)),
        match r {
            Ok(()) => {
                &&& acting == old(ms).external_authority
                &&& old(ms).keys@.len() > 1
                &&& final(ms).member_set() == old(ms).member_set().remove(old_member)
                &&& final(ms).keys@.len() == old(ms).keys@.len() - (if old(ms).keys@.contains(
                    old_member,
                ) {
                    1int
                } else {
                    0int
                })
                &&& final(ms).threshold as int == (if final(ms).keys@.len() < old(ms).threshold as int {
                    final(ms).keys@.len() as int
                } else {
                    old(ms).threshold as int
                })
                &&& final(ms).ms_change_index == old(ms).transaction_index
                &&& final(ms).transaction_index == old(ms).transaction_index
                &&& final(ms).external_authority == old(ms).external_authority
                &&& final(ms).create_key == old(ms).create_key
                &&& final(ms).authority_index == old(ms).authority_index
                &&& final(ms).allow_external_execute == old(ms).allow_external_execute
            },
            Err(e) => {
                &&& *final(ms) == *old(ms)
                &&& (e == GraphsError::InvalidExternalAuthority <==> acting != old(ms).external_authority)
                &&& (e == GraphsError::CannotRemoveSoloMember <==> (acting == old(ms).external_authority && old(ms).keys@.len() == 1))
                &&& (e == GraphsError::InvalidExternalAuthority
                    || e == GraphsError::CannotRemoveSoloMember)
            },
        },
{
    if acting != ms.external_authority {
        return Err(GraphsError::InvalidExternalAuthority);
    }
    if ms.keys.len() == 1 {
        return Err(GraphsError::CannotRemoveSoloMember);
    }
    let ghost orig = ms.keys@;
    match ms.is_member(old_member) {
        Some(ind) => {
            ms.keys.remove(ind);
            proof {
                let post = ms.keys@;
                assert forall|x: u64|
                    post.to_set().contains(x) <==> orig.to_set().remove(old_member).contains(
                        x,
                    ) by {
                    if post.contains(x) {
                        let w = choose|w: int| 0 <= w < post.len() && post[w] == x;
                        if w < ind {
                            assert(orig[w] == x);
                        } else {
                            assert(orig[w + 1] == x);
                        }
                        assert(x != old_member);
                    }
                    if orig.contains(x) && x != old_member {
                        let w = choose|w: int| 0 <= w < orig.len() && orig[w] == x;
                        if w < ind {
                            assert(post[w] == x);
                        } else {
                            assert(w > ind);
                            assert(post[w - 1] == x);
                        }
                    }
                }
                assert(post.to_set() =~= orig.to_set().remove(old_member));
            }
        },
        None => {
            proof {
                assert(orig.to_set() =~= orig.to_set().remove(old_member));
            }
        },
    }
    if ms.keys.len() < ms.threshold as usize {
        ms.threshold = ms.keys.len() as u16;
    }
    ms.ms_change_index = ms.transaction_index;
    Ok(())
}

/// Changes the threshold: a zero threshold is rejected, one above the member
/// count is clamped down to the member count; the change marker is bumped.
pub fn change_threshold(ms: &mut Ms, acting: u64, new_threshold: u16) -> (r: Result<
    (),
    GraphsError,
>)
    requires
        old(ms).wf(),
    ensures
        final(ms).wf(),
        registry_step(*old(ms), *final(ms)),
        match r {
            Ok(()) => {
                &&& acting == old(ms).external_authority
                &&& new_threshold >= 1
                &&& final(ms).threshold as int == (if new_threshold as int > old(ms).keys@.len() {
                    old(ms).keys@.len() as int
                } else {
                    new_threshold as int
                })
                &&& final(ms).ms_change_index == old(ms).transaction_index
                &&& final(ms).keys@ == old(ms).keys@
                &&& final(ms).transaction_index == old(ms).transaction_index
                &&& final(ms).external_authority == old(ms).external_authority
                &&& final(ms).create_key == old(ms).create_key
                &&& final(ms).authority_index == old(ms).authority_index
                &&& final(ms).allow_external_execute == old(ms).allow_external_execute
            },
            Err(e) => {
                &&& *final(ms) == *old(ms)
                &&& (e == GraphsError::InvalidExternalAuthority <==> acting != old(ms).external_authority)
                &&& (e == GraphsError::InvalidThreshold <==> (acting == old(ms).external_authority && new_threshold == 0))
                &&& (e == GraphsError::InvalidExternalAuthority
                    || e == GraphsError::InvalidThreshold)
            },
        },
{
    if acting != ms.external_authority {
        return Err(GraphsError::InvalidExternalAuthority);
    }
    if ms.keys.len() < new_threshold as usize {
        ms.threshold = ms.keys.len() as u16;
    } else if new_threshold < 1 {
        return Err(GraphsError::InvalidThreshold);
    } else {
        ms.threshold = new_threshold;
    }
    ms.ms_change_index = ms.transaction_index;
    Ok(())
}

/// Adds a member and changes the threshold in one atomic administrative step:
/// the threshold check observes the post-addition member count, and on any
/// fault the registry is left untouched.
pub fn add_member_and_change_threshold(
    ms: &mut Ms,
    acting: u64,
    new_member: u64,
    new_threshold: u16,
) -> (r: Result<(), GraphsError>)
    requires
        old(ms).wf(),
    ensures
        final(ms).wf(),
        registry_step(*old(ms), *final(ms)),
        match r {
            Ok(()) => {
                &&& acting == old(ms).external_authority
                &&& old(ms).keys@.len() < MAX_MEMBERS
                &&& new_threshold >= 1
                &&& final(ms).member_set() == old(ms).member_set().insert(new_member)
                &&& final(ms).threshold as int == (if new_threshold as int > final(ms).keys@.len() {
                    final(ms).keys@.len() as int
                } else {
                    new_threshold as int
                })
                &&& final(ms).ms_change_index == old(ms).transaction_index
                &&& final(ms).transaction_index == old(ms).transaction_index
                &&& final(ms).external_authority == old(ms).external_authority
                &&& final(ms).create_key == old(ms).create_key
                &&& final(ms).authority_index == old(ms).authority_index
                &&& final(ms).allow_external_execute == old(ms).allow_external_execute
            },
            Err(e) => {
                &&& *final(ms) == *old(ms)
                &&& (e == GraphsError::InvalidExternalAuthority <==> acting != old(ms).external_authority)
                &&& (e == GraphsError::MaxMembersReached <==> (acting == old(ms).external_authority && old(ms).keys@.len() >= MAX_MEMBERS))
                &&& (e == GraphsError::InvalidThreshold <==> (acting == old(ms).external_authority && old(ms).keys@.len() < MAX_MEMBERS && new_threshold == 0))
                &&& (e == GraphsError::InvalidExternalAuthority
                    || e == GraphsError::MaxMembersReached || e == GraphsError::InvalidThreshold)
            },
        },
{
    if acting != ms.external_authority {
        return Err(GraphsError::InvalidExternalAuthority);
    }
    if ms.keys.len() >= MAX_MEMBERS {
        return Err(GraphsError::MaxMembersReached);
    }
    if new_threshold < 1 {
        return Err(GraphsError::InvalidThreshold);
    }
    insert_key_sorted(&mut ms.keys, new_member);
    if ms.keys.len() < new_threshold as usize {
        ms.threshold = ms.keys.len() as u16;
    } else {
        ms.threshold = new_threshold;
    }
    ms.ms_change_index = ms.transaction_index;
    Ok(())
}

/// Removes a member and changes the threshold in one atomic administrative
/// step: the threshold check observes the post-removal member count, and on
/// any fault the registry is left untouched.
pub fn remove_member_and_change_threshold(
    ms: &mut Ms,
    acting: u64,
    old_member: u64,
    new_threshold: u16,
) -> (r: Result<(), GraphsError>)
    requires
        old(ms).wf(),
    ensures
        final(ms).wf(),
        registry_step(*old(ms), *final(ms)),
        match r {
            Ok(()) => {
                &&& acting == old(ms).external_authority
                &&& old(ms).keys@.len() > 1
                &&& new_threshold >= 1
                &&& final(ms).member_set() == old(ms).member_set().remove(old_member)
                &&& final(ms).keys@.len() == old(ms).keys@.len() - (if old(ms).keys@.contains(
                    old_member,
                ) {
                    1int
                } else {
                    0int
                })
                &&& final(ms).threshold as int == (if new_threshold as int > final(ms).keys@.len() {
                    final(ms).keys@.len() as int
                } else {
                    new_threshold as int
                })
                &&& final(ms).ms_change_index == old(ms).transaction_index
                &&& final(ms).transaction_index == old(ms).transaction_index
                &&& final(ms).external_authority == old(ms).external_authority
                &&& final(ms).create_key == old(ms).create_key
                &&& final(ms).authority_index == old(ms).authority_index
                &&& final(ms).allow_external_execute == old(ms).allow_external_execute
            },
            Err(e) => {
                &&& *final(ms) == *old(ms)
                &&& (e == GraphsError::InvalidExternalAuthority <==> acting != old(ms).external_authority)
                &&& (e == GraphsError::CannotRemoveSoloMember <==> (acting == old(ms).external_authority && old(ms).keys@.len() == 1))
                &&& (e == GraphsError::InvalidThreshold <==> (acting == old(ms).external_authority && old(ms).keys@.len() > 1 && new_threshold == 0))
                &&& (e == GraphsError::InvalidExternalAuthority
                    || e == GraphsError::CannotRemoveSoloMember
                    || e == GraphsError::InvalidThreshold)
            },
        },
{
    if acting != ms.external_authority {
        return Err(GraphsError::InvalidExternalAuthority);
    }
    if ms.keys.len() == 1 {
        return Err(GraphsError::CannotRemoveSoloMember);
    }
    if new_threshold < 1 {
        return Err(GraphsError::InvalidThreshold);
    }
    let r = remove_member(ms, acting, old_member);
    proof {
        assert(r is Ok);
    }
    if ms.keys.len() < new_threshold as usize {
        ms.threshold = ms.keys.len() as u16;
    } else {
        ms.threshold = new_threshold;
    }
    Ok(())
}

/// Sets whether non-members may trigger execution.
pub fn set_external_execute(ms: &mut Ms, acting: u64, setting: bool) -> (r: Result<
    (),
    GraphsError,
>)
    requires
        old(ms).wf(),
    ensures
        final(ms).wf(),
        registry_step(*old(ms), *final(ms)),
        match r {
            Ok(()) => {
                &&& acting == old(ms).external_authority
                &&& *final(ms) == (Ms { allow_external_execute: setting, ..*old(ms) })
            },
            Err(e) => {
                &&& *final(ms) == *old(ms)
                &&& e == GraphsError::InvalidExternalAuthority
                &&& acting != old(ms).external_authority
            },
        },
{
    if acting != ms.external_authority {
        return Err(GraphsError::InvalidExternalAuthority);
    }
    ms.allow_external_execute = setting;
    Ok(())
}

/// Hands administrative control of the group to a new external authority.
pub fn change_external_authority(ms: &mut Ms, acting: u64, new_authority: u64) -> (r: Result<
    (),
    GraphsError,
>)
    requires
        old(ms).wf(),
    ensures
        final(ms).wf(),
        registry_step(*old(ms), *final(ms)),
        match r {
            Ok(()) => {
                &&& acting == old(ms).external_authority
                &&& *final(ms) == (Ms { external_authority: new_authority, ..*old(ms) })
            },
            Err(e) => {
                &&& *final(ms) == *old(ms)
                &&& e == GraphsError::InvalidExternalAuthority
                &&& acting != old(ms).external_authority
            },
        },
{
    if acting != ms.external_authority {
        return Err(GraphsError::InvalidExternalAuthority);
    }
    ms.external_authority = new_authority;
    Ok(())
}

/// Bumps the count of delegated authorities tracked for the group. This is
/// bookkeeping only: authorities are derived deterministically, so tracking
/// them is a convenience, not a requirement.
pub fn add_authority(ms: &mut Ms, acting: u64) -> (r: Result<(), GraphsError>)
    requires
        old(ms).wf(),
        old(ms).authority_index < u16::MAX,
    ensures
        final(ms).wf(),
        registry_step(*old(ms), *final(ms)),
        match r {
            Ok(()) => {
                &&& acting == old(ms).external_authority
                &&& *final(ms) == (Ms {
                    authority_index: (old(ms).authority_index + 1) as u16,
                    ..*old(ms)
                })
            },
            Err(e) => {
                &&& *final(ms) == *old(ms)
                &&& e == GraphsError::InvalidExternalAuthority
                &&& acting != old(ms).external_authority
            },
        },
{
    if acting != ms.external_authority {
        return Err(GraphsError::InvalidExternalAuthority);
    }
    ms.authority_index = ms.authority_index + 1;
    Ok(())
}

/// Returns what a group's durable record must grow to before one more member
/// key can be stored, or nothing when a spot is already free. Growth adds
/// room for ten keys at once.
pub fn realloc_size(curr_size: u64, member_count: u64) -> (r: Option<u64>)
    requires
        curr_size >= MS_BASE_SIZE,
        curr_size + GROWTH_INCREMENT <= u64::MAX,
    ensures
        ({
            let spots = (curr_size - MS_BASE_SIZE) / (KEY_SIZE as int);
            if spots <= member_count as int {
                r == Some((curr_size + GROWTH_INCREMENT) as u64)
            } else {
                r is None
            }
        }),
{
    let spots = (curr_size - MS_BASE_SIZE) / KEY_SIZE;
    if spots <= member_count {
        Some(curr_size + GROWTH_INCREMENT)
    } else {
        None
    }
}

/// How many funding units must be transferred so that a record of the grown
/// size meets its minimum-balance requirement: the shortfall between the
/// (at least one unit) requirement and the record's current balance.
pub open spec fn required_top_up(minimum_balance: u64, current_balance: u64) -> int {
    let required: int = if minimum_balance >= 1 {
        minimum_balance as int
    } else {
        1
    };
    if required > current_balance as int {
        required - current_balance as int
    } else {
        0
    }
}

/// Computes the funding shortfall for a grown record.
pub fn top_up_amount(minimum_balance: u64, current_balance: u64) -> (r: u64)
    ensures
        r as int == required_top_up(minimum_balance, current_balance),
{
    let required: u64 = if minimum_balance >= 1 {
        minimum_balance
    } else {
        1
    };
    if required > current_balance {
        required - current_balance
    } else {
        0
    }
}

} // verus!
