//! The grants of roles to users inside theatres, and the checks made against
//! them.

use vstd::prelude::*;
use crate::error::ErrorType;
use crate::model::{TheatreRole, UserTheatreRole};
use crate::role::Role;
use crate::services::role::{stored_id, RoleService};
use crate::table::{lemma_filter_members, lemma_filter_none, lemma_filter_step};

verus! {

/// The table of grants. No grant stands in it twice.
pub struct BridgeRoleService {
    rows: Vec<UserTheatreRole>,
}

/// Whether a grant passes the filters: a filter that is given must match, one
/// that is not given lets every grant pass.
pub open spec fn grant_matches(
    grant: UserTheatreRole,
    uid: Option<u128>,
    tid: Option<u128>,
    rid: Option<u128>,
) -> bool {
    &&& uid matches Some(u) ==> grant.user_id == u
    &&& tid matches Some(t) ==> grant.theatre_id == t
    &&& rid matches Some(r) ==> grant.role_id == r
}

/// Whether the user holds the role in the theatre: the role is stored, and
/// the grant of it to the user in that theatre is in the table. A role that
/// was never stored is held by nobody.
pub open spec fn holds_role(
    roles: Seq<TheatreRole>,
    grants: Seq<UserTheatreRole>,
    uid: u128,
    tid: u128,
    role: Role,
) -> bool {
    match stored_id(roles, role) {
        Some(role_id) => grants.contains(UserTheatreRole { user_id: uid, role_id, theatre_id: tid }),
        None => false,
    }
}

/// Whether the user holds at least one of the roles in the theatre.
pub open spec fn holds_any(
    roles: Seq<TheatreRole>,
    grants: Seq<UserTheatreRole>,
    uid: u128,
    tid: u128,
    required: Seq<Role>,
) -> bool {
    exists|i: int| 0 <= i < required.len() && holds_role(roles, grants, uid, tid, #[trigger] required[i])
}

/// Whether the user holds every one of the roles in the theatre.
pub open spec fn holds_all(
    roles: Seq<TheatreRole>,
    grants: Seq<UserTheatreRole>,
    uid: u128,
    tid: u128,
    required: Seq<Role>,
) -> bool {
    forall|i: int| 0 <= i < required.len() ==> holds_role(roles, grants, uid, tid, #[trigger] required[i])
}

fn matches(grant: &UserTheatreRole, uid: Option<u128>, tid: Option<u128>, rid: Option<u128>) -> (r:
    bool)
    ensures
        r == grant_matches(*grant, uid, tid, rid),
{
    let user_ok = match uid {
        Some(u) => grant.user_id == u,
        None => true,
    };
    let theatre_ok = match tid {
        Some(t) => grant.theatre_id == t,
        None => true,
    };
    let role_ok = match rid {
        Some(r) => grant.role_id == r,
        None => true,
    };
    user_ok && theatre_ok && role_ok
}

fn contains(rows: &Vec<UserTheatreRole>, grant: &UserTheatreRole) -> (r: bool)
    ensures
        r == rows@.contains(*grant),
{
    let mut i: usize = 0;
    while i < rows.len()
        invariant
            i <= rows.len(),
            forall|j: int| 0 <= j < i ==> rows@[j] != *grant,
        decreases rows.len() - i,
    {
        if rows[i] == *grant {
            return true;
        }
        i += 1;
    }
    false
}

impl BridgeRoleService {
    #[verifier::type_invariant]
    spec fn no_grant_twice(self) -> bool {
        self.rows@.no_duplicates()
    }

    /// The table without any grant.
    pub fn new() -> (r: BridgeRoleService)
        ensures
            r.grants() == Seq::<UserTheatreRole>::empty(),
    {
        BridgeRoleService { rows: Vec::new() }
    }

    /// The grants of the table, in the order in which they were made.
    pub closed spec fn grants(&self) -> Seq<UserTheatreRole> {
        self.rows@
    }

    /// How many grants the table holds. No grant is counted twice, since none
    /// stands in the table twice.
    pub fn len(&self) -> (n: usize)
        ensures
            n == self.grants().len(),
            self.grants().no_duplicates(),
    {
        proof {
            use_type_invariant(self);
        }
        self.rows.len()
    }

    /// Makes the given grants. A grant that is already in the table, or that
    /// was given twice, is made once: the table takes it as an upsert. What
    /// comes back are the grants that were new.
    pub fn register_roles(&mut self, roles: Vec<UserTheatreRole>) -> (inserted: Vec<
        UserTheatreRole,
    >)
        ensures
            final(self).grants() == old(self).grants() + inserted@,
            inserted@.no_duplicates(),
            forall|g: UserTheatreRole| #[trigger]
                inserted@.contains(g) <==> roles@.contains(g) && !old(self).grants().contains(g),
    {
        proof {
            use_type_invariant(&*self);
        }
        let mut all: Vec<UserTheatreRole> = Vec::new();
        let mut k: usize = 0;
        while k < self.rows.len()
            invariant
                k <= self.rows.len(),
                all@ == self.rows@.subrange(0, k as int),
            decreases self.rows.len() - k,
        {
            all.push(self.rows[k]);
            k += 1;
        }
        assert(all@ == self.rows@);
        let mut inserted: Vec<UserTheatreRole> = Vec::new();
        let mut i: usize = 0;
        while i < roles.len()
            invariant
                i <= roles.len(),
                all@ == self.rows@ + inserted@,
                all@.no_duplicates(),
                self.rows@.no_duplicates(),
                inserted@.no_duplicates(),
                forall|g: UserTheatreRole| #[trigger]
                    inserted@.contains(g) <==> roles@.subrange(0, i as int).contains(g)
                        && !self.rows@.contains(g),
            decreases roles.len() - i,
        {
            let g = roles[i];
            let ghost before = inserted@;
            let ghost seen = roles@.subrange(0, i as int);
            let ghost seen_next = roles@.subrange(0, i + 1);
            assert(seen_next == seen.push(g));
            if !contains(&all, &g) {
                all.push(g);
                inserted.push(g);
                proof {
                    assert(!before.contains(g)) by {
                        if before.contains(g) {
                            let j = choose|j: int| 0 <= j < before.len() && before[j] == g;
                            assert((self.rows@ + before)[self.rows@.len() + j] == g);
                        }
                    }
                    assert(!self.rows@.contains(g)) by {
                        if self.rows@.contains(g) {
                            let j = choose|j: int| 0 <= j < self.rows@.len() && self.rows@[j] == g;
                            assert((self.rows@ + before)[j] == g);
                        }
                    }
                    assert(all@ == self.rows@ + inserted@);
                    assert forall|x: UserTheatreRole| #[trigger]
                        inserted@.contains(x) <==> seen_next.contains(x) && !self.rows@.contains(
                            x,
                        ) by {
                        if inserted@.contains(x) {
                            let j = choose|j: int| 0 <= j < inserted@.len() && inserted@[j] == x;
                            if j < before.len() {
                                assert(before[j] == x);
                                assert(before.contains(x));
                                let m = choose|m: int| 0 <= m < seen.len() && seen[m] == x;
                                assert(seen_next[m] == x);
                            } else {
                                assert(seen_next[i as int] == x);
                            }
                        }
                        if seen_next.contains(x) && !self.rows@.contains(x) {
                            let m = choose|m: int| 0 <= m < seen_next.len() && seen_next[m] == x;
                            if m < i {
                                assert(seen[m] == x);
                                assert(seen.contains(x));
                                assert(before.contains(x));
                                let j = choose|j: int| 0 <= j < before.len() && before[j] == x;
                                assert(inserted@[j] == x);
                            } else {
                                assert(inserted@[before.len() as int] == x);
                            }
                        }
                    }
                }
            } else {
                proof {
                    assert forall|x: UserTheatreRole| #[trigger]
                        inserted@.contains(x) <==> seen_next.contains(x) && !self.rows@.contains(
                            x,
                        ) by {
                        if inserted@.contains(x) {
                            let m = choose|m: int| 0 <= m < seen.len() && seen[m] == x;
                            assert(seen_next[m] == x);
                        }
                        if seen_next.contains(x) && !self.rows@.contains(x) {
                            let m = choose|m: int| 0 <= m < seen_next.len() && seen_next[m] == x;
                            if m < i {
                                assert(seen[m] == x);
                                assert(seen.contains(x));
                            } else {
                                let j = choose|j: int| 0 <= j < all@.len() && all@[j] == g;
                                if j < self.rows@.len() {
                                    assert(self.rows@[j] == g);
                                } else {
                                    assert(inserted@[j - self.rows@.len()] == g);
                                }
                            }
                        }
                    }
                }
            }
            i += 1;
        }
        assert(roles@.subrange(0, roles@.len() as int) == roles@);
        self.rows = all;
        inserted
    }

    /// Takes back every grant that passes the filters.
    pub fn unregister_roles(&mut self, uid: Option<u128>, tid: Option<u128>, rid: Option<u128>)
        ensures
            final(self).grants() == old(self).grants().filter(
                |g: UserTheatreRole| !grant_matches(g, uid, tid, rid),
            ),
    {
        proof {
            use_type_invariant(&*self);
        }
        let ghost kept_if = |g: UserTheatreRole| !grant_matches(g, uid, tid, rid);
        let mut kept: Vec<UserTheatreRole> = Vec::new();
        let mut i: usize = 0;
        proof {
            lemma_filter_none(self.rows@, kept_if);
        }
        while i < self.rows.len()
            invariant
                i <= self.rows.len(),
                kept_if == (|g: UserTheatreRole| !grant_matches(g, uid, tid, rid)),
                kept@ == self.rows@.subrange(0, i as int).filter(kept_if),
            decreases self.rows.len() - i,
        {
            proof {
                lemma_filter_step(self.rows@, kept_if, i as int);
            }
            if !matches(&self.rows[i], uid, tid, rid) {
                kept.push(self.rows[i]);
            }
            i += 1;
        }
        assert(self.rows@.subrange(0, self.rows@.len() as int) == self.rows@);
        proof {
            lemma_filter_keeps_distinct(self.rows@, kept_if);
        }
        self.rows = kept;
    }

    /// Takes back the given grants. Grants that are not in the table are
    /// passed over; with no grant given, nothing changes.
    pub fn unregister_roles_batch(&mut self, roles: Vec<UserTheatreRole>)
        ensures
            final(self).grants() == old(self).grants().filter(
                |g: UserTheatreRole| !roles@.contains(g),
            ),
    {
        proof {
            use_type_invariant(&*self);
        }
        let ghost kept_if = |g: UserTheatreRole| !roles@.contains(g);
        let mut kept: Vec<UserTheatreRole> = Vec::new();
        let mut i: usize = 0;
        proof {
            lemma_filter_none(self.rows@, kept_if);
        }
        while i < self.rows.len()
            invariant
                i <= self.rows.len(),
                kept_if == (|g: UserTheatreRole| !roles@.contains(g)),
                kept@ == self.rows@.subrange(0, i as int).filter(kept_if),
            decreases self.rows.len() - i,
        {
            proof {
                lemma_filter_step(self.rows@, kept_if, i as int);
            }
            if !contains(&roles, &self.rows[i]) {
                kept.push(self.rows[i]);
            }
            i += 1;
        }
        assert(self.rows@.subrange(0, self.rows@.len() as int) == self.rows@);
        proof {
            lemma_filter_keeps_distinct(self.rows@, kept_if);
        }
        self.rows = kept;
    }

    /// The grants that pass the filters, in the order in which they were
    /// made.
    pub fn get_roles(&self, uid: Option<u128>, tid: Option<u128>, rid: Option<u128>) -> (r: Vec<
        UserTheatreRole,
    >)
        ensures
            r@ == self.grants().filter(|g: UserTheatreRole| grant_matches(g, uid, tid, rid)),
    {
        let ghost wanted = |g: UserTheatreRole| grant_matches(g, uid, tid, rid);
        let mut found: Vec<UserTheatreRole> = Vec::new();
        let mut i: usize = 0;
        proof {
            lemma_filter_none(self.rows@, wanted);
        }
        while i < self.rows.len()
            invariant
                i <= self.rows.len(),
                wanted == (|g: UserTheatreRole| grant_matches(g, uid, tid, rid)),
                found@ == self.rows@.subrange(0, i as int).filter(wanted),
            decreases self.rows.len() - i,
        {
            proof {
                lemma_filter_step(self.rows@, wanted, i as int);
            }
            if matches(&self.rows[i], uid, tid, rid) {
                found.push(self.rows[i]);
            }
            i += 1;
        }
        assert(self.rows@.subrange(0, self.rows@.len() as int) == self.rows@);
        found
    }

    /// Whether the grant is in the table.
    pub fn role_exists(&self, role: UserTheatreRole) -> (r: bool)
        ensures
            r == self.grants().contains(role),
    {
        contains(&self.rows, &role)
    }
}

/// Filtering rows of which none stands twice leaves rows of which none stands
/// twice.
pub proof fn lemma_filter_keeps_distinct<T>(rows: Seq<T>, wanted: spec_fn(T) -> bool)
    requires
        rows.no_duplicates(),
    ensures
        rows.filter(wanted).no_duplicates(),
    decreases rows.len(),
{
    reveal(Seq::filter);
    if rows.len() > 0 {
        let rest = rows.drop_last();
        lemma_filter_keeps_distinct(rest, wanted);
        lemma_filter_members(rest, wanted);
        if wanted(rows.last()) {
            let kept = rest.filter(wanted);
            assert(!kept.contains(rows.last())) by {
                if kept.contains(rows.last()) {
                    assert(rest.contains(rows.last()));
                    let j = choose|j: int| 0 <= j < rest.len() && rest[j] == rows.last();
                    assert(rows[j] == rows[rows.len() - 1]);
                }
            }
        }
    }
}

/// Whether the user holds the role in the theatre.
pub fn check_role(
    role: Role,
    uid: u128,
    tid: u128,
    brs: &BridgeRoleService,
    rs: &RoleService,
) -> (r: bool)
    ensures
        r == holds_role(rs.rows(), brs.grants(), uid, tid, role),
{
    match rs.id_of(role) {
        Some(role_id) => brs.role_exists(UserTheatreRole { user_id: uid, role_id, theatre_id: tid }),
        None => false,
    }
}

/// Passes if the user holds at least one of the roles in the theatre, and
/// reports insufficient permission otherwise. With no role asked for, nobody
/// passes.
pub fn check_roles_or(
    roles: &[Role],
    uid: u128,
    tid: u128,
    brs: &BridgeRoleService,
    rs: &RoleService,
) -> (r: Result<(), ErrorType>)
    ensures
        r is Ok <==> holds_any(rs.rows(), brs.grants(), uid, tid, roles@),
        r matches Err(e) ==> e == ErrorType::InsufficientPermission,
{
    let mut i: usize = 0;
    while i < roles.len()
        invariant
            i <= roles.len(),
            forall|j: int|
                0 <= j < i ==> !holds_role(rs.rows(), brs.grants(), uid, tid, #[trigger] roles@[j]),
        decreases roles.len() - i,
    {
        if check_role(roles[i], uid, tid, brs, rs) {
            return Ok(());
        }
        i += 1;
    }
    Err(ErrorType::InsufficientPermission)
}

/// Passes if the user holds every one of the roles in the theatre, and
/// reports insufficient permission otherwise. With no role asked for,
/// everybody passes.
pub fn check_roles_and(
    roles: &[Role],
    uid: u128,
    tid: u128,
    brs: &BridgeRoleService,
    rs: &RoleService,
) -> (r: Result<(), ErrorType>)
    ensures
        r is Ok <==> holds_all(rs.rows(), brs.grants(), uid, tid, roles@),
        r matches Err(e) ==> e == ErrorType::InsufficientPermission,
{
    let mut i: usize = 0;
    while i < roles.len()
        invariant
            i <= roles.len(),
            forall|j: int|
                0 <= j < i ==> holds_role(rs.rows(), brs.grants(), uid, tid, #[trigger] roles@[j]),
        decreases roles.len() - i,
    {
        if !check_role(roles[i], uid, tid, brs, rs) {
            return Err(ErrorType::InsufficientPermission);
        }
        i += 1;
    }
    Ok(())
}

} // verus!
