//! OIDC subject to POSIX UID/GID mapping (identity mapping tables).
//!
//! Each federated organization owns a range of `stride` identifiers starting
//! at `base + org_index * stride`.  Subjects are assigned the next free
//! offset of their organization's range, once; later requests for the same
//! subject return the recorded entry.

use vstd::prelude::*;

use crate::common::error::PactError;
use crate::keyed::{
    has_key, index_map, keys_unique, lemma_index_map_at, lemma_index_map_push,
    lemma_index_map_update, lemma_key_pos,
};
use crate::text::{string_eq_str, string_from, views};
use crate::common::types::clone_strings;

verus! {

/// Single OIDC to POSIX mapping entry.
#[derive(Debug, PartialEq, Eq)]
pub struct UidEntry {
    /// OIDC subject identifier (e.g., "user@cscs.ch").
    pub subject: String,
    /// POSIX user ID.
    pub uid: u32,
    /// Primary POSIX group ID.
    pub gid: u32,
    /// Username for NSS.
    pub username: String,
    /// Home directory.
    pub home: String,
    /// Login shell.
    pub shell: String,
    /// Organization identifier (for federation).
    pub org: String,
}

/// The plain contents of a [`UidEntry`].
pub struct UidEntryView {
    pub subject: Seq<char>,
    pub uid: u32,
    pub gid: u32,
    pub username: Seq<char>,
    pub home: Seq<char>,
    pub shell: Seq<char>,
    pub org: Seq<char>,
}

impl View for UidEntry {
    type V = UidEntryView;

    open spec fn view(&self) -> UidEntryView {
        UidEntryView {
            subject: self.subject@,
            uid: self.uid,
            gid: self.gid,
            username: self.username@,
            home: self.home@,
            shell: self.shell@,
            org: self.org@,
        }
    }
}

impl Clone for UidEntry {
    fn clone(&self) -> (r: Self)
        ensures
            r == *self,
    {
        UidEntry {
            subject: self.subject.clone(),
            uid: self.uid,
            gid: self.gid,
            username: self.username.clone(),
            home: self.home.clone(),
            shell: self.shell.clone(),
            org: self.org.clone(),
        }
    }
}

/// Group mapping entry for supplementary group resolution.
#[derive(Debug, PartialEq, Eq)]
pub struct GroupEntry {
    /// Group name.
    pub name: String,
    /// POSIX group ID.
    pub gid: u32,
    /// Member usernames.
    pub members: Vec<String>,
}

/// The plain contents of a [`GroupEntry`].
pub struct GroupEntryView {
    pub name: Seq<char>,
    pub gid: u32,
    pub members: Seq<Seq<char>>,
}

impl View for GroupEntry {
    type V = GroupEntryView;

    open spec fn view(&self) -> GroupEntryView {
        GroupEntryView { name: self.name@, gid: self.gid, members: views(self.members@) }
    }
}

impl Clone for GroupEntry {
    fn clone(&self) -> (r: Self)
        ensures
            r@ == self@,
    {
        GroupEntry { name: self.name.clone(), gid: self.gid, members: clone_strings(&self.members) }
    }
}

/// Federated org index: `precursor = base + index * stride`.
#[derive(Debug, PartialEq, Eq)]
pub struct OrgIndex {
    /// Organization identifier.
    pub org: String,
    /// Sequential index assigned on federation join (0 = local).
    pub index: u32,
}

impl Clone for OrgIndex {
    fn clone(&self) -> (r: Self)
        ensures
            r == *self,
    {
        OrgIndex { org: self.org.clone(), index: self.index }
    }
}

/// Complete OIDC to POSIX mapping table.
///
/// `users` holds one entry per subject and `next_uid_offset` one counter per
/// organization (the well-formedness condition `wf`).
#[derive(Debug)]
pub struct UidMap {
    /// User entries, one per OIDC subject.
    pub users: Vec<UidEntry>,
    /// Group entries.
    pub groups: Vec<GroupEntry>,
    /// Organization indices for federation.
    pub org_indices: Vec<OrgIndex>,
    /// Base UID for precursor computation.
    pub base_uid: u32,
    /// Base GID for precursor computation.
    pub base_gid: u32,
    /// Stride (maximum users per org).
    pub stride: u32,
    /// Next offset to assign within each organization's range, by org name.
    pub next_uid_offset: Vec<(String, u32)>,
}

/// Outcome of an assignment request, as seen by the model.
pub enum AssignOutcome {
    /// The subject maps to this entry (newly assigned or already present).
    Assigned(UidEntryView),
    /// The organization has no index.
    OrgNotRegistered,
    /// The organization's range is full; the offset reached is given.
    RangeExhausted(u32),
}

/// The mathematical content of a [`UidMap`].
pub struct UidMapModel {
    /// Entries by subject.
    pub users: Map<Seq<char>, UidEntryView>,
    /// Registered organizations in order, with their index.
    pub orgs: Seq<(Seq<char>, u32)>,
    /// Next offset by organization (absent means zero).
    pub offsets: Map<Seq<char>, u32>,
    pub groups: Seq<GroupEntryView>,
    pub base_uid: u32,
    pub base_gid: u32,
    pub stride: u32,
}

/// The index of the first registration of `org`.
pub open spec fn org_lookup(orgs: Seq<(Seq<char>, u32)>, org: Seq<char>) -> Option<u32>
    decreases orgs.len(),
{
    if orgs.len() == 0 {
        None
    } else if orgs[0].0 == org {
        Some(orgs[0].1)
    } else {
        org_lookup(orgs.drop_first(), org)
    }
}

/// The registrations of `orgs` other than those of `org`, in order.
pub open spec fn without_org(orgs: Seq<(Seq<char>, u32)>, org: Seq<char>) -> Seq<(Seq<char>, u32)>
    decreases orgs.len(),
{
    if orgs.len() == 0 {
        orgs
    } else {
        let rest = without_org(orgs.drop_last(), org);
        if orgs.last().0 == org {
            rest
        } else {
            rest.push(orgs.last())
        }
    }
}

impl UidMapModel {
    /// Index of an organization, if registered.
    pub open spec fn org_index(self, org: Seq<char>) -> Option<u32> {
        org_lookup(self.orgs, org)
    }

    /// Next offset to assign in an organization's range.
    pub open spec fn next_offset(self, org: Seq<char>) -> u32 {
        if self.offsets.contains_key(org) {
            self.offsets[org]
        } else {
            0
        }
    }

    /// First UID of the range of the organization with index `idx`.
    pub open spec fn uid_precursor(self, idx: u32) -> int {
        self.base_uid + idx * self.stride
    }

    /// First GID of the range of the organization with index `idx`.
    pub open spec fn gid_precursor(self, idx: u32) -> int {
        self.base_gid + idx * self.stride
    }

    /// A fresh assignment for `subject` in `org` would yield identifiers
    /// that fit in 32 bits.
    pub open spec fn assign_fits(self, subject: Seq<char>, org: Seq<char>) -> bool {
        (!self.users.contains_key(subject) && self.org_index(org) is Some && self.next_offset(org)
            < self.stride) ==> {
            let idx = self.org_index(org)->0;
            &&& self.uid_precursor(idx) + self.next_offset(org) <= u32::MAX
            &&& self.gid_precursor(idx) + self.next_offset(org) <= u32::MAX
        }
    }

    /// The entry a fresh assignment creates.
    pub open spec fn fresh_entry(
        self,
        subject: Seq<char>,
        username: Seq<char>,
        org: Seq<char>,
        home: Seq<char>,
        shell: Seq<char>,
    ) -> UidEntryView {
        let idx = self.org_index(org)->0;
        let off = self.next_offset(org);
        UidEntryView {
            subject,
            uid: (self.uid_precursor(idx) + off) as u32,
            gid: (self.gid_precursor(idx) + off) as u32,
            username,
            home,
            shell,
            org,
        }
    }

    /// The table after an assignment request, and its outcome.
    pub open spec fn assign(
        self,
        subject: Seq<char>,
        username: Seq<char>,
        org: Seq<char>,
        home: Seq<char>,
        shell: Seq<char>,
    ) -> (UidMapModel, AssignOutcome) {
        if self.users.contains_key(subject) {
            (self, AssignOutcome::Assigned(self.users[subject]))
        } else if self.org_index(org) is None {
            (self, AssignOutcome::OrgNotRegistered)
        } else if self.next_offset(org) >= self.stride {
            (self, AssignOutcome::RangeExhausted(self.next_offset(org)))
        } else {
            let e = self.fresh_entry(subject, username, org, home, shell);
            (
                UidMapModel {
                    users: self.users.insert(subject, e),
                    offsets: self.offsets.insert(org, (self.next_offset(org) + 1) as u32),
                    ..self
                },
                AssignOutcome::Assigned(e),
            )
        }
    }

    /// The table after an organization leaves the federation: its users,
    /// counter and registration are removed, and no group lists the
    /// username of a removed user any more.
    pub open spec fn gc_org(self, org: Seq<char>) -> UidMapModel {
        UidMapModel {
            users: Map::new(
                |k: Seq<char>| self.users.contains_key(k) && self.users[k].org != org,
                |k: Seq<char>| self.users[k],
            ),
            orgs: without_org(self.orgs, org),
            offsets: self.offsets.remove(org),
            groups: self.groups.map_values(|g: GroupEntryView| pruned_group(g, self.users, org)),
            ..self
        }
    }
}

/// Whether `name` is the username of a user of `org`.
pub open spec fn departed(users: Map<Seq<char>, UidEntryView>, org: Seq<char>, name: Seq<char>) -> bool {
    exists|k: Seq<char>| users.contains_key(k) && #[trigger] users[k].org == org && users[k].username == name
}

/// A group without the usernames of `org`'s users.
pub open spec fn pruned_group(g: GroupEntryView, users: Map<Seq<char>, UidEntryView>, org: Seq<char>) -> GroupEntryView {
    GroupEntryView { members: g.members.filter(|m: Seq<char>| !departed(users, org, m)), ..g }
}

/// Whether some user of the sequence belongs to `org` and has that name.
pub open spec fn departed_in(users: Seq<UidEntry>, org: Seq<char>, name: Seq<char>) -> bool {
    exists|p: int| 0 <= p < users.len() && #[trigger] users[p].org@ == org && users[p].username@ == name
}

/// The key of a user entry: its subject.
pub open spec fn subject_key() -> spec_fn(UidEntry) -> Seq<char> {
    |e: UidEntry| e.subject@
}

/// The value of a user entry: its view.
pub open spec fn entry_val() -> spec_fn(UidEntry) -> UidEntryView {
    |e: UidEntry| e@
}

/// The key of an offset counter: its organization.
pub open spec fn offset_key() -> spec_fn((String, u32)) -> Seq<char> {
    |p: (String, u32)| p.0@
}

/// The value of an offset counter.
pub open spec fn offset_val() -> spec_fn((String, u32)) -> u32 {
    |p: (String, u32)| p.1
}

/// An organization registration as a pair of name and index.
pub open spec fn org_pair() -> spec_fn(OrgIndex) -> (Seq<char>, u32) {
    |o: OrgIndex| (o.org@, o.index)
}

/// How an exec result of `assign_uid` reads in the model.
pub open spec fn outcome_of(r: Result<UidEntry, PactError>) -> AssignOutcome {
    match r {
        Ok(e) => AssignOutcome::Assigned(e@),
        Err(PactError::UidRangeExhausted { assigned, .. }) => AssignOutcome::RangeExhausted(
            assigned,
        ),
        Err(_) => AssignOutcome::OrgNotRegistered,
    }
}

proof fn lemma_departed_in(users: Seq<UidEntry>, org: Seq<char>, name: Seq<char>)
    requires
        keys_unique(users, subject_key()),
    ensures
        departed_in(users, org, name) == departed(index_map(users, subject_key(), entry_val()), org, name),
{
    let m = index_map(users, subject_key(), entry_val());
    if departed_in(users, org, name) {
        let p = choose|p: int| 0 <= p < users.len() && #[trigger] users[p].org@ == org && users[p].username@ == name;
        lemma_index_map_at(users, subject_key(), entry_val(), p);
        assert(m[users[p].subject@].org == org);
    }
    if departed(m, org, name) {
        let k = choose|k: Seq<char>| m.contains_key(k) && #[trigger] m[k].org == org && m[k].username == name;
        let p = choose|p: int| 0 <= p < users.len() && subject_key()(users[p]) == k;
        lemma_index_map_at(users, subject_key(), entry_val(), p);
        assert(users[p].org@ == org);
    }
}

fn is_departed(users: &Vec<UidEntry>, org: &str, name: &String) -> (r: bool)
    ensures
        r == departed_in(users@, org@, name@),
{
    let mut i: usize = 0;
    while i < users.len()
        invariant
            i <= users@.len(),
            forall|p: int| 0 <= p < i ==> !(users@[p].org@ == org@ && users@[p].username@ == name@),
        decreases users.len() - i,
    {
        if string_eq_str(&users[i].org, org) && string_eq_str(&users[i].username, name.as_str()) {
            assert(users@[i as int].org@ == org@ && users@[i as int].username@ == name@);
            return true;
        }
        i = i + 1;
    }
    false
}

fn pruned_members(members: &Vec<String>, users: &Vec<UidEntry>, org: &str) -> (r: Vec<String>)
    requires
        keys_unique(users@, subject_key()),
    ensures
        views(r@) == views(members@).filter(
            |m: Seq<char>| !departed(index_map(users@, subject_key(), entry_val()), org@, m),
        ),
{
    let ghost um = index_map(users@, subject_key(), entry_val());
    let mut r: Vec<String> = Vec::new();
    let mut j: usize = 0;
    while j < members.len()
        invariant
            j <= members@.len(),
            keys_unique(users@, subject_key()),
            um == index_map(users@, subject_key(), entry_val()),
            views(r@) == views(members@).take(j as int).filter(|m: Seq<char>| !departed(um, org@, m)),
        decreases members.len() - j,
    {
        proof {
            assert(views(members@).take(j + 1).drop_last() =~= views(members@).take(j as int));
            assert(views(members@).take(j + 1).last() == members@[j as int]@);
            reveal(Seq::filter);
            lemma_departed_in(users@, org@, members@[j as int]@);
        }
        if !is_departed(users, org, &members[j]) {
            let ghost before = r@;
            r.push(members[j].clone());
            proof {
                assert(views(r@) =~= views(before).push(members@[j as int]@));
            }
        }
        j = j + 1;
    }
    proof {
        assert(views(members@).take(members@.len() as int) =~= views(members@));
    }
    r
}

impl UidMap {
    /// The mathematical content of the table.
    pub open spec fn model(self) -> UidMapModel {
        UidMapModel {
            users: index_map(self.users@, subject_key(), entry_val()),
            orgs: self.org_indices@.map_values(org_pair()),
            offsets: index_map(self.next_uid_offset@, offset_key(), offset_val()),
            groups: self.groups@.map_values(|g: GroupEntry| g@),
            base_uid: self.base_uid,
            base_gid: self.base_gid,
            stride: self.stride,
        }
    }

    /// One entry per subject and one counter per organization.
    pub open spec fn wf(self) -> bool {
        &&& keys_unique(self.users@, subject_key())
        &&& keys_unique(self.next_uid_offset@, offset_key())
    }

    /// An empty table with base UID/GID 10000 and a stride of 10000.
    pub fn new() -> (m: Self)
        ensures
            m.wf(),
            m.users@.len() == 0,
            m.groups@.len() == 0,
            m.org_indices@.len() == 0,
            m.next_uid_offset@.len() == 0,
            m.base_uid == 10_000,
            m.base_gid == 10_000,
            m.stride == 10_000,
    {
        UidMap {
            users: Vec::new(),
            groups: Vec::new(),
            org_indices: Vec::new(),
            base_uid: 10_000,
            base_gid: 10_000,
            stride: 10_000,
            next_uid_offset: Vec::new(),
        }
    }

    /// First UID of the range of the organization with index `org_index`.
    pub fn uid_precursor(&self, org_index: u32) -> (r: u32)
        requires
            self.base_uid + org_index * self.stride <= u32::MAX,
        ensures
            r == self.base_uid + org_index * self.stride,
    {
        proof {
            vstd::arithmetic::mul::lemma_mul_nonnegative(org_index as int, self.stride as int);
        }
        self.base_uid + org_index * self.stride
    }

    /// First GID of the range of the organization with index `org_index`.
    pub fn gid_precursor(&self, org_index: u32) -> (r: u32)
        requires
            self.base_gid + org_index * self.stride <= u32::MAX,
        ensures
            r == self.base_gid + org_index * self.stride,
    {
        proof {
            vstd::arithmetic::mul::lemma_mul_nonnegative(org_index as int, self.stride as int);
        }
        self.base_gid + org_index * self.stride
    }

    /// Index of an organization: that of its first registration.
    pub fn org_index(&self, org: &str) -> (r: Option<u32>)
        ensures
            r == self.model().org_index(org@),
    {
        let ghost orgs = self.org_indices@.map_values(org_pair());
        let mut i: usize = 0;
        proof {
            assert(orgs.skip(0) =~= orgs);
        }
        while i < self.org_indices.len()
            invariant
                i <= self.org_indices@.len(),
                orgs == self.org_indices@.map_values(org_pair()),
                org_lookup(orgs, org@) == org_lookup(orgs.skip(i as int), org@),
            decreases self.org_indices.len() - i,
        {
            let o = &self.org_indices[i];
            if string_eq_str(&o.org, org) {
                proof {
                    assert(orgs.skip(i as int)[0] == (o.org@, o.index));
                }
                return Some(o.index);
            }
            proof {
                assert(orgs.skip(i as int)[0] == (o.org@, o.index));
                assert(orgs.skip(i as int).drop_first() =~= orgs.skip(i + 1));
            }
            i = i + 1;
        }
        proof {
            assert(orgs.skip(i as int).len() == 0);
        }
        None
    }

    /// Position of the subject's entry, if any.
    fn find_subject(&self, subject: &str) -> (r: Option<usize>)
        ensures
            r matches Some(i) ==> i < self.users@.len() && self.users@[i as int].subject@
                == subject@,
            r is None ==> !has_key(self.users@, subject_key(), subject@),
    {
        let mut i: usize = 0;
        while i < self.users.len()
            invariant
                i <= self.users@.len(),
                forall|k: int| 0 <= k < i ==> self.users@[k].subject@ != subject@,
            decreases self.users.len() - i,
        {
            if string_eq_str(&self.users[i].subject, subject) {
                return Some(i);
            }
            i = i + 1;
        }
        proof {
            if has_key(self.users@, subject_key(), subject@) {
                let k = choose|k: int|
                    0 <= k < self.users@.len() && subject_key()(self.users@[k]) == subject@;
                assert(self.users@[k].subject@ != subject@);
            }
        }
        None
    }

    /// Position and value of the organization's offset counter, if any.
    fn find_offset(&self, org: &str) -> (r: (Option<usize>, u32))
        requires
            self.wf(),
        ensures
            r.1 == self.model().next_offset(org@),
            r.0 matches Some(j) ==> j < self.next_uid_offset@.len()
                && self.next_uid_offset@[j as int].0@ == org@,
            r.0 is None ==> !has_key(self.next_uid_offset@, offset_key(), org@),
    {
        let mut j: usize = 0;
        while j < self.next_uid_offset.len()
            invariant
                self.wf(),
                j <= self.next_uid_offset@.len(),
                forall|k: int| 0 <= k < j ==> self.next_uid_offset@[k].0@ != org@,
            decreases self.next_uid_offset.len() - j,
        {
            if string_eq_str(&self.next_uid_offset[j].0, org) {
                proof {
                    lemma_index_map_at(self.next_uid_offset@, offset_key(), offset_val(), j as int);
                }
                return (Some(j), self.next_uid_offset[j].1);
            }
            j = j + 1;
        }
        proof {
            if has_key(self.next_uid_offset@, offset_key(), org@) {
                let k = choose|k: int|
                    0 <= k < self.next_uid_offset@.len() && offset_key()(self.next_uid_offset@[k])
                        == org@;
                assert(self.next_uid_offset@[k].0@ != org@);
            }
        }
        (None, 0)
    }

    /// Assign a UID for a subject in the given org.
    ///
    /// Returns the recorded entry if the subject already has one; otherwise
    /// the next offset of the org's range is used and recorded.  Fails when
    /// the org is not registered or its range is exhausted.
    pub fn assign_uid(
        &mut self,
        subject: &str,
        username: &str,
        org: &str,
        home: &str,
        shell: &str,
    ) -> (r: Result<UidEntry, PactError>)
        requires
            old(self).wf(),
            old(self).model().assign_fits(subject@, org@),
        ensures
            final(self).wf(),
            (final(self).model(), outcome_of(r)) == old(self).model().assign(
                subject@,
                username@,
                org@,
                home@,
                shell@,
            ),
            r matches Err(PactError::OrgNotRegistered(o)) ==> o@ == org@,
            r matches Err(PactError::UidRangeExhausted { org: o, stride, .. }) ==> o@ == org@
                && stride == old(self).stride,
            r is Err ==> (r matches Err(PactError::OrgNotRegistered(_)) || r matches Err(
                PactError::UidRangeExhausted { .. },
            )),
    {
        let ghost m0 = self.model();
        if let Some(i) = self.find_subject(subject) {
            proof {
                lemma_index_map_at(self.users@, subject_key(), entry_val(), i as int);
            }
            return Ok(self.users[i].clone());
        }
        let idx = match self.org_index(org) {
            Some(idx) => idx,
            None => {
                return Err(PactError::OrgNotRegistered(string_from(org)));
            },
        };
        let (pos, offset) = self.find_offset(org);
        if offset >= self.stride {
            return Err(
                PactError::UidRangeExhausted {
                    org: string_from(org),
                    stride: self.stride,
                    assigned: offset,
                },
            );
        }
        let uid = self.uid_precursor(idx) + offset;
        let gid = self.gid_precursor(idx) + offset;
        let entry = UidEntry {
            subject: string_from(subject),
            uid,
            gid,
            username: string_from(username),
            home: string_from(home),
            shell: string_from(shell),
            org: string_from(org),
        };
        let ghost e = entry@;
        proof {
            assert(e == m0.fresh_entry(subject@, username@, org@, home@, shell@));
            lemma_index_map_push(self.users@, subject_key(), entry_val(), entry);
        }
        self.users.push(entry.clone());
        match pos {
            Some(j) => {
                let item = (string_from(org), offset + 1);
                proof {
                    lemma_index_map_update(
                        self.next_uid_offset@,
                        offset_key(),
                        offset_val(),
                        j as int,
                        item,
                    );
                }
                self.next_uid_offset.set(j, item);
            },
            None => {
                let item = (string_from(org), offset + 1);
                proof {
                    lemma_index_map_push(self.next_uid_offset@, offset_key(), offset_val(), item);
                }
                self.next_uid_offset.push(item);
            },
        }
        proof {
            assert(self.model().users == m0.users.insert(subject@, e));
            assert(self.model().offsets == m0.offsets.insert(org@, (offset + 1) as u32));
            assert(self.model().orgs == m0.orgs);
            assert(self.model().groups == m0.groups);
        }
        Ok(entry)
    }

    /// Remove all entries and counters of an org (federation departure),
    /// and the usernames of its users from every group.
    pub fn gc_org(&mut self, org: &str)
        requires
            old(self).wf(),
        ensures
            final(self).wf(),
            final(self).model() == old(self).model().gc_org(org@),
    {
        let ghost m0 = self.model();
        // Groups: drop the members that are users of the organization.
        let ghost groups0 = self.groups@;
        let mut new_groups: Vec<GroupEntry> = Vec::new();
        let mut gi: usize = 0;
        while gi < self.groups.len()
            invariant
                gi <= self.groups@.len(),
                self.groups@ == groups0,
                self.wf(),
                m0 == self.model(),
                new_groups@.len() == gi,
                forall|k: int| 0 <= k < gi ==> (#[trigger] new_groups@[k])@ == pruned_group(groups0[k]@, m0.users, org@),
            decreases self.groups.len() - gi,
        {
            let members = pruned_members(&self.groups[gi].members, &self.users, org);
            let g = GroupEntry { name: self.groups[gi].name.clone(), gid: self.groups[gi].gid, members };
            proof {
                assert(g@ =~= pruned_group(groups0[gi as int]@, m0.users, org@));
            }
            new_groups.push(g);
            gi = gi + 1;
        }
        self.groups = new_groups;
        proof {
            assert(self.groups@.map_values(|g: GroupEntry| g@) =~= m0.groups.map_values(
                |g: GroupEntryView| pruned_group(g, m0.users, org@),
            ));
        }
        // Users: keep those of other organizations.
        let mut kept: Vec<UidEntry> = Vec::new();
        let mut i: usize = 0;
        let ghost users0 = self.users@;
        proof {
            crate::keyed::lemma_index_map_empty(kept@, subject_key(), entry_val());
        }
        while i < self.users.len()
            invariant
                i <= self.users@.len(),
                self.users@ == users0,
                keys_unique(users0, subject_key()),
                keys_unique(kept@, subject_key()),
                forall|k: int| 0 <= k < kept@.len() ==> kept@[k].org@ != org@,
                forall|k: int|
                    0 <= k < kept@.len() ==> exists|p: int|
                        0 <= p < i && users0[p] == #[trigger] kept@[k],
                index_map(kept@, subject_key(), entry_val()) == Map::new(
                    |k: Seq<char>|
                        has_key(users0.take(i as int), subject_key(), k) && index_map(
                            users0.take(i as int),
                            subject_key(),
                            entry_val(),
                        )[k].org != org@,
                    |k: Seq<char>| index_map(users0.take(i as int), subject_key(), entry_val())[k],
                ),
            decreases self.users.len() - i,
        {
            let ghost pre = users0.take(i as int);
            let ghost post = users0.take(i + 1);
            let ghost x = users0[i as int];
            proof {
                assert(post =~= pre.push(x));
                assert(keys_unique(pre, subject_key()));
                assert(!has_key(pre, subject_key(), x.subject@)) by {
                    if has_key(pre, subject_key(), x.subject@) {
                        let p = choose|p: int| 0 <= p < pre.len() && subject_key()(pre[p]) == x.subject@;
                        assert(users0[p] == pre[p]);
                    }
                }
                lemma_index_map_push(pre, subject_key(), entry_val(), x);
            }
            let ghost kept_before = kept@;
            if !string_eq_str(&self.users[i].org, org) {
                let e = self.users[i].clone();
                proof {
                    assert(!has_key(kept@, subject_key(), x.subject@)) by {
                        if has_key(kept@, subject_key(), x.subject@) {
                            let k = choose|k: int| 0 <= k < kept@.len() && subject_key()(kept@[k]) == x.subject@;
                            let p = choose|p: int| 0 <= p < i && users0[p] == kept@[k];
                            assert(users0[p].subject@ == users0[i as int].subject@);
                        }
                    }
                    lemma_index_map_push(kept@, subject_key(), entry_val(), e);
                }
                kept.push(e);
                proof {
                    assert forall|k: int| 0 <= k < kept@.len() implies exists|p: int|
                        0 <= p < i + 1 && users0[p] == #[trigger] kept@[k] by {
                        if k == kept@.len() - 1 {
                            assert(users0[i as int] == kept@[k]);
                        } else {
                            let p = choose|p: int| 0 <= p < i && users0[p] == kept@[k];
                            assert(users0[p] == kept@[k]);
                        }
                    }
                }
            }
            proof {
                let mp = index_map(pre, subject_key(), entry_val());
                let mq = index_map(post, subject_key(), entry_val());
                let goal_pre = Map::new(
                    |k: Seq<char>| has_key(pre, subject_key(), k) && mp[k].org != org@,
                    |k: Seq<char>| mp[k],
                );
                let goal = Map::new(
                    |k: Seq<char>| has_key(post, subject_key(), k) && mq[k].org != org@,
                    |k: Seq<char>| mq[k],
                );
                assert(mq == mp.insert(x.subject@, x@));
                assert(index_map(kept_before, subject_key(), entry_val()) == goal_pre);
                assert forall|k: Seq<char>| #[trigger] has_key(post, subject_key(), k) <==> mq.contains_key(k) by {}
                assert forall|k: Seq<char>| #[trigger] has_key(pre, subject_key(), k) <==> mp.contains_key(k) by {}
                if x.org@ != org@ {
                    assert(index_map(kept@, subject_key(), entry_val()) == goal_pre.insert(x.subject@, x@));
                    assert(goal =~= goal_pre.insert(x.subject@, x@));
                } else {
                    assert(kept@ == kept_before);
                    assert(goal =~= goal_pre);
                }
            }
            i = i + 1;
        }
        proof {
            assert(users0.take(users0.len() as int) =~= users0);
        }
        self.users = kept;
        // Counter of the organization.
        let (pos, _) = self.find_offset(org);
        if let Some(j) = pos {
            let ghost offs0 = self.next_uid_offset@;
            proof {
                lemma_key_pos(offs0, offset_key(), j as int);
            }
            self.next_uid_offset.remove(j);
            proof {
                let offs1 = self.next_uid_offset@;
                assert(offs1 =~= offs0.remove(j as int));
                assert forall|a: int, b: int|
                    0 <= a < offs1.len() && 0 <= b < offs1.len() && a != b implies offset_key()(
                    offs1[a]) != offset_key()(offs1[b]) by {
                    let a0 = if a < j { a } else { a + 1 };
                    let b0 = if b < j { b } else { b + 1 };
                    assert(offs1[a] == offs0[a0]);
                    assert(offs1[b] == offs0[b0]);
                }
                let m1 = index_map(offs1, offset_key(), offset_val());
                let m2 = index_map(offs0, offset_key(), offset_val()).remove(org@);
                assert forall|k: Seq<char>| m1.contains_key(k) <==> m2.contains_key(k) by {
                    if has_key(offs1, offset_key(), k) {
                        let a = choose|a: int| 0 <= a < offs1.len() && offset_key()(offs1[a]) == k;
                        let a0 = if a < j { a } else { a + 1 };
                        assert(offs1[a] == offs0[a0]);
                    }
                    if has_key(offs0, offset_key(), k) && k != org@ {
                        let a0 = choose|a: int| 0 <= a < offs0.len() && offset_key()(offs0[a]) == k;
                        let a = if a0 < j { a0 } else { a0 - 1 };
                        assert(offs1[a] == offs0[a0]);
                    }
                }
                assert forall|k: Seq<char>| m1.contains_key(k) implies m1[k] == m2[k] by {
                    let a = choose|a: int| 0 <= a < offs1.len() && offset_key()(offs1[a]) == k;
                    let a0 = if a < j { a } else { a + 1 };
                    assert(offs1[a] == offs0[a0]);
                    lemma_key_pos(offs1, offset_key(), a);
                    lemma_key_pos(offs0, offset_key(), a0);
                }
                assert(m1 =~= m2);
            }
        } else {
            proof {
                let offs = self.next_uid_offset@;
                let m = index_map(offs, offset_key(), offset_val());
                assert(m.remove(org@) =~= m);
            }
        }
        // Organization registrations.
        let ghost orgs0 = self.org_indices@.map_values(org_pair());
        let mut kept_orgs: Vec<OrgIndex> = Vec::new();
        let mut k: usize = 0;
        proof {
            assert(orgs0.take(0) =~= Seq::<(Seq<char>, u32)>::empty());
            assert(kept_orgs@.map_values(org_pair()) =~= Seq::<(Seq<char>, u32)>::empty());
        }
        while k < self.org_indices.len()
            invariant
                k <= self.org_indices@.len(),
                orgs0 == self.org_indices@.map_values(org_pair()),
                kept_orgs@.map_values(org_pair()) == without_org(orgs0.take(k as int), org@),
            decreases self.org_indices.len() - k,
        {
            proof {
                assert(orgs0.take(k + 1).drop_last() =~= orgs0.take(k as int));
                assert(orgs0.take(k + 1).last() == org_pair()(self.org_indices@[k as int]));
            }
            if !string_eq_str(&self.org_indices[k].org, org) {
                let o = self.org_indices[k].clone();
                kept_orgs.push(o);
                proof {
                    assert(kept_orgs@.map_values(org_pair()) =~= without_org(
                        orgs0.take(k as int),
                        org@,
                    ).push(org_pair()(o)));
                }
            }
            k = k + 1;
        }
        proof {
            assert(orgs0.take(self.org_indices@.len() as int) =~= orgs0);
        }
        self.org_indices = kept_orgs;
        proof {
            let mu = self.model().users;
            let mg = m0.gc_org(org@).users;
            assert(mu =~= mg);
            assert(self.model().orgs == m0.gc_org(org@).orgs);
            assert(self.model().groups == m0.gc_org(org@).groups);
            assert(self.model() == m0.gc_org(org@));
        }
    }

    /// Look up a user by UID: some entry with that UID, if any.
    pub fn get_by_uid(&self, uid: u32) -> (r: Option<&UidEntry>)
        requires
            self.wf(),
        ensures
            r is Some <==> exists|k: Seq<char>|
                self.model().users.contains_key(k) && #[trigger] self.model().users[k].uid == uid,
            r matches Some(e) ==> e.uid == uid && self.model().users.contains_key(e.subject@)
                && self.model().users[e.subject@] == e@,
    {
        let mut i: usize = 0;
        while i < self.users.len()
            invariant
                self.wf(),
                i <= self.users@.len(),
                forall|k: int| 0 <= k < i ==> self.users@[k].uid != uid,
            decreases self.users.len() - i,
        {
            if self.users[i].uid == uid {
                proof {
                    lemma_index_map_at(self.users@, subject_key(), entry_val(), i as int);
                    assert(self.model().users[self.users@[i as int].subject@].uid == uid);
                }
                return Some(&self.users[i]);
            }
            i = i + 1;
        }
        proof {
            assert forall|k: Seq<char>| self.model().users.contains_key(k) implies #[trigger] self.model().users[k].uid != uid by {
                let p = choose|p: int| 0 <= p < self.users@.len() && subject_key()(self.users@[p]) == k;
                lemma_index_map_at(self.users@, subject_key(), entry_val(), p);
            }
        }
        None
    }

    /// Look up a user by username: some entry with that username, if any.
    pub fn get_by_username(&self, username: &str) -> (r: Option<&UidEntry>)
        requires
            self.wf(),
        ensures
            r is Some <==> exists|k: Seq<char>|
                self.model().users.contains_key(k) && #[trigger] self.model().users[k].username
                    == username@,
            r matches Some(e) ==> e.username@ == username@ && self.model().users.contains_key(
                e.subject@,
            ) && self.model().users[e.subject@] == e@,
    {
        let mut i: usize = 0;
        while i < self.users.len()
            invariant
                self.wf(),
                i <= self.users@.len(),
                forall|k: int| 0 <= k < i ==> self.users@[k].username@ != username@,
            decreases self.users.len() - i,
        {
            if string_eq_str(&self.users[i].username, username) {
                proof {
                    lemma_index_map_at(self.users@, subject_key(), entry_val(), i as int);
                    assert(self.model().users[self.users@[i as int].subject@].username == username@);
                }
                return Some(&self.users[i]);
            }
            i = i + 1;
        }
        proof {
            assert forall|k: Seq<char>| self.model().users.contains_key(k) implies #[trigger] self.model().users[k].username != username@ by {
                let p = choose|p: int| 0 <= p < self.users@.len() && subject_key()(self.users@[p]) == k;
                lemma_index_map_at(self.users@, subject_key(), entry_val(), p);
            }
        }
        None
    }
}

/// The cases of an assignment request: a known subject gets its entry back
/// and nothing changes; a request for an unregistered organization, or for
/// one whose range is used up, is refused and nothing changes; otherwise
/// the subject gets the UID and GID at the organization's next offset,
/// recorded under its subject, and the counter moves on by one.
pub proof fn law_assign_cases(
    m: UidMapModel,
    subject: Seq<char>,
    username: Seq<char>,
    org: Seq<char>,
    home: Seq<char>,
    shell: Seq<char>,
)
    requires
        m.assign_fits(subject, org),
    ensures
        ({
            let (m2, out) = m.assign(subject, username, org, home, shell);
            let idx = m.org_index(org)->0;
            let off = m.next_offset(org);
            &&& m.users.contains_key(subject) ==> m2 == m && out == AssignOutcome::Assigned(m.users[subject])
            &&& !m.users.contains_key(subject) && m.org_index(org) is None ==> m2 == m && out is OrgNotRegistered
            &&& !m.users.contains_key(subject) && m.org_index(org) is Some && off >= m.stride ==> m2 == m && out
                == AssignOutcome::RangeExhausted(off)
            &&& !m.users.contains_key(subject) && m.org_index(org) is Some && off < m.stride ==> (out matches AssignOutcome::Assigned(e)
                && e.uid == m.uid_precursor(idx) + off && e.gid == m.gid_precursor(idx) + off && e.subject == subject
                && e.username == username && e.org == org && e.home == home && e.shell == shell && m2.users == m.users.insert(
                subject,
                e,
            ) && m2.next_offset(org) == off + 1 && m2.orgs == m.orgs && m2.groups == m.groups)
        }),
{
}

/// Assignment is idempotent: once a subject has an entry, asking again (with
/// any username, org, home or shell) returns the same entry and changes
/// nothing.
pub proof fn law_assign_idempotent(
    m: UidMapModel,
    subject: Seq<char>,
    username: Seq<char>,
    org: Seq<char>,
    home: Seq<char>,
    shell: Seq<char>,
    username2: Seq<char>,
    org2: Seq<char>,
    home2: Seq<char>,
    shell2: Seq<char>,
)
    requires
        m.assign(subject, username, org, home, shell).1 is Assigned,
    ensures
        ({
            let (m1, out1) = m.assign(subject, username, org, home, shell);
            m1.assign(subject, username2, org2, home2, shell2) == (m1, out1)
        }),
{
}

/// Entries are immutable once assigned: any assignment request leaves every
/// other subject's entry as it was, and keeps every existing entry.
pub proof fn law_assign_keeps_existing(
    m: UidMapModel,
    subject: Seq<char>,
    username: Seq<char>,
    org: Seq<char>,
    home: Seq<char>,
    shell: Seq<char>,
    other: Seq<char>,
)
    requires
        m.users.contains_key(other),
    ensures
        m.assign(subject, username, org, home, shell).0.users.contains_key(other),
        m.assign(subject, username, org, home, shell).0.users[other] == m.users[other],
{
}

/// A fresh assignment lands in the organization's range:
/// `precursor <= uid < precursor + stride`, and the GID at the same offset.
pub proof fn law_assign_in_range(
    m: UidMapModel,
    subject: Seq<char>,
    username: Seq<char>,
    org: Seq<char>,
    home: Seq<char>,
    shell: Seq<char>,
)
    requires
        !m.users.contains_key(subject),
        m.org_index(org) is Some,
        m.assign_fits(subject, org),
        m.assign(subject, username, org, home, shell).1 is Assigned,
    ensures
        ({
            let e = m.assign(subject, username, org, home, shell).1->Assigned_0;
            let idx = m.org_index(org)->0;
            &&& m.uid_precursor(idx) <= e.uid < m.uid_precursor(idx) + m.stride
            &&& e.gid - m.gid_precursor(idx) == e.uid - m.uid_precursor(idx)
            &&& e.subject == subject && e.org == org
        }),
{
}

/// Assignments within an organization are sequential: two fresh subjects
/// assigned one after the other receive consecutive UIDs and GIDs.
pub proof fn law_assign_sequential(
    m: UidMapModel,
    s1: Seq<char>,
    s2: Seq<char>,
    org: Seq<char>,
    u1: Seq<char>,
    u2: Seq<char>,
    h1: Seq<char>,
    h2: Seq<char>,
    sh1: Seq<char>,
    sh2: Seq<char>,
)
    requires
        s1 != s2,
        !m.users.contains_key(s1),
        !m.users.contains_key(s2),
        m.org_index(org) is Some,
        m.next_offset(org) + 2 <= m.stride,
        m.uid_precursor(m.org_index(org)->0) + m.next_offset(org) + 1 <= u32::MAX,
        m.gid_precursor(m.org_index(org)->0) + m.next_offset(org) + 1 <= u32::MAX,
    ensures
        ({
            let (m1, out1) = m.assign(s1, u1, org, h1, sh1);
            let (m2, out2) = m1.assign(s2, u2, org, h2, sh2);
            &&& out1 is Assigned && out2 is Assigned
            &&& out2->Assigned_0.uid == out1->Assigned_0.uid + 1
            &&& out2->Assigned_0.gid == out1->Assigned_0.gid + 1
            &&& m2.next_offset(org) == m.next_offset(org) + 2
        }),
{
    let (m1, out1) = m.assign(s1, u1, org, h1, sh1);
    assert(m1.orgs == m.orgs);
    assert(m1.next_offset(org) == m.next_offset(org) + 1);
    assert(!m1.users.contains_key(s2));
}

/// After an organization leaves, none of its users remain, it has no index
/// and no counter, users of other organizations are kept unchanged, no
/// group lists the username of one of its former users, and a new subject
/// of that organization can no longer be assigned.
pub proof fn law_gc_org_forgets(
    m: UidMapModel,
    org: Seq<char>,
    other: Seq<char>,
    subject: Seq<char>,
    username: Seq<char>,
    home: Seq<char>,
    shell: Seq<char>,
)
    ensures
        ({
            let g = m.gc_org(org);
            &&& forall|k: Seq<char>| #[trigger] g.users.contains_key(k) ==> g.users[k].org != org
            &&& g.org_index(org) is None
            &&& !g.offsets.contains_key(org)
            &&& (m.users.contains_key(other) && m.users[other].org != org) ==> (
            g.users.contains_key(other) && g.users[other] == m.users[other])
            &&& !g.users.contains_key(subject) ==> g.assign(subject, username, org, home, shell).1
                is OrgNotRegistered
            &&& forall|gi: int, j: int|
                0 <= gi < g.groups.len() && 0 <= j < g.groups[gi].members.len() ==> !departed(
                    m.users,
                    org,
                    #[trigger] g.groups[gi].members[j],
                )
        }),
{
    lemma_without_org(m.orgs, org);
    let g = m.gc_org(org);
    assert forall|gi: int, j: int|
        0 <= gi < g.groups.len() && 0 <= j < g.groups[gi].members.len() implies !departed(
        m.users,
        org,
        #[trigger] g.groups[gi].members[j],
    ) by {
        let ms = m.groups[gi].members;
        let f = |x: Seq<char>| !departed(m.users, org, x);
        assert(g.groups[gi].members == ms.filter(f));
        assert(ms.filter(f).contains(ms.filter(f)[j]));
        ms.lemma_filter_contains_rev(f, ms.filter(f)[j]);
    }
}

/// No registration of `org` remains once it is removed.
proof fn lemma_without_org(orgs: Seq<(Seq<char>, u32)>, org: Seq<char>)
    ensures
        org_lookup(without_org(orgs, org), org) is None,
        forall|i: int| 0 <= i < without_org(orgs, org).len() ==> without_org(orgs, org)[i].0 != org,
    decreases orgs.len(),
{
    if orgs.len() > 0 {
        lemma_without_org(orgs.drop_last(), org);
        let rest = without_org(orgs.drop_last(), org);
        if orgs.last().0 != org {
            let t = rest.push(orgs.last());
            assert forall|i: int| 0 <= i < t.len() implies t[i].0 != org by {
                if i < rest.len() {
                    assert(t[i] == rest[i]);
                }
            }
            lemma_lookup_absent(t, org);
        }
    } else {
        lemma_lookup_absent(without_org(orgs, org), org);
    }
}

/// Looking up a name that no registration carries finds nothing.
proof fn lemma_lookup_absent(orgs: Seq<(Seq<char>, u32)>, org: Seq<char>)
    requires
        forall|i: int| 0 <= i < orgs.len() ==> orgs[i].0 != org,
    ensures
        org_lookup(orgs, org) is None,
    decreases orgs.len(),
{
    if orgs.len() > 0 {
        assert(orgs[0].0 != org);
        let t = orgs.drop_first();
        assert forall|i: int| 0 <= i < t.len() implies t[i].0 != org by {
            assert(t[i] == orgs[i + 1]);
        }
        lemma_lookup_absent(t, org);
    }
}

} // verus!
