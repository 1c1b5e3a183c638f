//! Finding members by name, status and text, and roles and channels by name.

use vstd::prelude::*;
use std::cmp::Ordering;

use crate::guild::{Guild, LARGE_THRESHOLD};
use crate::id::{ChannelId, UserId};
use crate::model::{GuildChannel, Member, OnlineStatus, Presence, Role};
use crate::seq_lib::{
    equivalent, filter_map_seq, first_match, insert_sorted, insertion_sorted, lemma_first_match_at,
    lemma_first_match_exists, lemma_first_match_none, lemma_insert_sorted_at,
    lemma_insertion_sorted_multiset,
    lemma_insertion_sorted_ordered, lemma_insertion_sorted_stable, ordered_by, strict_weak_order,
};
use crate::text::{
    closest_order, closest_to_origin, match_end, contains, contains_case_insensitive, find_bytes,
    last_index_of, last_index_of_char, lemma_last_index_of_bound, lowercase, parse_u16, parse_u16_text, starts_with,
    starts_with_bytes, starts_with_case_insensitive, text_eq, utf8,
};
use vstd::string::StrSliceExecFns;

verus! {

/// `name` begins with `prefix`, exactly when `case_sensitive`, else after lower-casing both.
pub open spec fn text_starts(prefix: Seq<char>, case_sensitive: bool, name: Seq<char>) -> bool {
    (case_sensitive && starts_with_bytes(utf8(name), utf8(prefix))) || (!case_sensitive
        && starts_with_bytes(utf8(lowercase(name)), utf8(lowercase(prefix))))
}

/// `name` contains `substring`, exactly when `case_sensitive`, else after lower-casing
/// both.
pub open spec fn text_contains(substring: Seq<char>, case_sensitive: bool, name: Seq<char>) -> bool {
    (case_sensitive && find_bytes(utf8(name), utf8(substring)).is_some()) || (!case_sensitive
        && find_bytes(utf8(lowercase(name)), utf8(lowercase(substring))).is_some())
}

/// The search entry of a member whose account name, or else nickname, satisfies `test`.
pub open spec fn name_or_nick_entry(test: spec_fn(Seq<char>) -> bool) -> spec_fn(Member) -> Option<
    (Member, Seq<char>),
> {
    |m: Member|
        if test(m.user.name@) {
            Some((m, m.user.name@))
        } else {
            match m.nick {
                Some(nick) => if test(nick@) {
                    Some((m, nick@))
                } else {
                    None
                },
                None => None,
            }
        }
}

/// The search entry of a member whose account name satisfies `test`.
pub open spec fn username_entry(test: spec_fn(Seq<char>) -> bool) -> spec_fn(Member) -> Option<
    (Member, Seq<char>),
> {
    |m: Member|
        if test(m.user.name@) {
            Some((m, m.user.name@))
        } else {
            None
        }
}

/// The search entry of a member whose nickname (or account name, without one) satisfies
/// `test`.
pub open spec fn nick_entry(test: spec_fn(Seq<char>) -> bool) -> spec_fn(Member) -> Option<
    (Member, Seq<char>),
> {
    |m: Member|
        {
            let nick = match m.nick {
                Some(n) => n@,
                None => m.user.name@,
            };
            if test(nick) {
                Some((m, nick))
            } else {
                None
            }
        }
}

/// `a` is a strictly closer match for `origin` than `b`.
pub open spec fn is_closer(origin: Seq<char>, a: Seq<char>, b: Seq<char>) -> bool {
    closest_order(origin, a, b) == Ordering::Less
}

/// An entry goes before another when its name is a closer match for `origin`.
pub open spec fn closeness(origin: Seq<char>) -> spec_fn((Member, Seq<char>), (Member, Seq<char>)) -> bool {
    |x: (Member, Seq<char>), e: (Member, Seq<char>)| is_closer(origin, x.1, e.1)
}

/// The entries of the members that `entry` picks, in member order, or stably sorted
/// by closeness to `origin` when `sorted`.
pub open spec fn search_result(
    members: Seq<Member>,
    entry: spec_fn(Member) -> Option<(Member, Seq<char>)>,
    origin: Seq<char>,
    sorted: bool,
) -> Seq<(Member, Seq<char>)> {
    let entries = filter_map_seq(members, entry);
    if sorted {
        insertion_sorted(entries, closeness(origin))
    } else {
        entries
    }
}

/// Search entries with the member and name read as values.
pub open spec fn entries_view(r: Seq<(&Member, String)>) -> Seq<(Member, Seq<char>)> {
    r.map_values(|e: (&Member, String)| (*e.0, e.1@))
}

/// Whether `name` begins with `prefix`, with or without regard to case.
fn starts_with_cased(prefix: &str, case_sensitive: bool, name: &str) -> (r: bool)
    ensures
        r == text_starts(prefix@, case_sensitive, name@),
{
    (case_sensitive && starts_with(name, prefix)) || (!case_sensitive
        && starts_with_case_insensitive(name, prefix))
}

/// Whether `name` contains `substring`, with or without regard to case.
fn contains_cased(substring: &str, case_sensitive: bool, name: &str) -> (r: bool)
    ensures
        r == text_contains(substring@, case_sensitive, name@),
{
    (case_sensitive && contains(name, substring)) || (!case_sensitive
        && contains_case_insensitive(name, substring))
}

/// Whether `a` is a closer match for `origin` than `b`.
fn closer(origin: &str, a: &str, b: &str) -> (r: bool)
    ensures
        r == is_closer(origin@, a@, b@),
{
    match closest_to_origin(origin, a, b) {
        Ordering::Less => true,
        _ => false,
    }
}

/// Puts `x` into `v` after every entry it is not a closer match than.
fn insert_by_closeness<'a>(origin: &str, v: &mut Vec<(&'a Member, String)>, x: (&'a Member, String))
    ensures
        entries_view(final(v)@) == insert_sorted(
            entries_view(old(v)@),
            (*x.0, x.1@),
            closeness(origin@),
        ),
{
    let mut k = v.len();
    while k > 0 && closer(origin, x.1.as_str(), v[k - 1].1.as_str())
        invariant
            k <= v@.len(),
            v@ == old(v)@,
            forall|j: int|
                k <= j < v@.len() ==> (closeness(origin@))(
                    (*x.0, x.1@),
                    #[trigger] entries_view(v@)[j],
                ),
        decreases k,
    {
        k -= 1;
    }
    proof {
        lemma_insert_sorted_at(entries_view(v@), (*x.0, x.1@), closeness(origin@), k as int);
        assert(entries_view(v@.insert(k as int, x)) =~= entries_view(v@).insert(
            k as int,
            (*x.0, x.1@),
        ));
    }
    v.insert(k, x);
}

/// Stably sorts search entries by closeness to `origin`.
fn sort_by_closeness<'a>(origin: &str, entries: &Vec<(&'a Member, String)>) -> (r: Vec<
    (&'a Member, String),
>)
    ensures
        entries_view(r@) == insertion_sorted(entries_view(entries@), closeness(origin@)),
{
    let mut sorted: Vec<(&'a Member, String)> = Vec::new();
    let mut i: usize = 0;
    while i < entries.len()
        invariant
            i <= entries@.len(),
            entries_view(sorted@) == insertion_sorted(
                entries_view(entries@).take(i as int),
                closeness(origin@),
            ),
        decreases entries.len() - i,
    {
        let x = (entries[i].0, entries[i].1.clone());
        proof {
            assert(entries_view(entries@).take(i + 1).drop_last() =~= entries_view(
                entries@,
            ).take(i as int));
            assert(entries_view(entries@).take(i + 1).last() == (*x.0, x.1@));
        }
        insert_by_closeness(origin, &mut sorted, x);
        i += 1;
    }
    proof {
        assert(entries_view(entries@).take(entries@.len() as int) =~= entries_view(entries@));
    }
    sorted
}

/// Adding an entry at the end adds its view at the end.
proof fn lemma_entries_view_push<'a>(v: Seq<(&'a Member, String)>, x: (&'a Member, String))
    ensures
        entries_view(v.push(x)) == entries_view(v).push((*x.0, x.1@)),
{
    assert(entries_view(v.push(x)) =~= entries_view(v).push((*x.0, x.1@)));
}

impl Guild {
    /// Checks if the guild is 'large': it has more than 250 members.
    pub fn is_large(&self) -> (r: bool)
        ensures
            r == (self.members@.len() > LARGE_THRESHOLD),
    {
        self.members.len() as u64 > LARGE_THRESHOLD
    }

    /// Retrieves all members that start with a given text, by account name or else
    /// nickname, each with the name that matched.
    ///
    /// `sorted` decides whether the best early match of the `prefix` should be the
    /// criteria to sort the result. For the `prefix` "zey" and the unsorted result
    /// "zeya", "zeyaa", "zeyla", "zeyzey", "zeyzeyzey" it would be sorted
    /// "zeya", "zeyaa", "zeyla", "zeyzey", "zeyzeyzey".
    pub fn members_starting_with(&self, prefix: &str, case_sensitive: bool, sorted: bool) -> (r:
        Vec<(&Member, String)>)
        ensures
            entries_view(r@) == search_result(
                self.members@,
                name_or_nick_entry(|name: Seq<char>| text_starts(prefix@, case_sensitive, name)),
                prefix@,
                sorted,
            ),
    {
        let ghost entry = name_or_nick_entry(
            |name: Seq<char>| text_starts(prefix@, case_sensitive, name),
        );
        let mut members: Vec<(&Member, String)> = Vec::new();
        let mut i: usize = 0;
        while i < self.members.len()
            invariant
                i <= self.members@.len(),
                entry == name_or_nick_entry(
                    |name: Seq<char>| text_starts(prefix@, case_sensitive, name),
                ),
                entries_view(members@) == filter_map_seq(self.members@.take(i as int), entry),
            decreases self.members.len() - i,
        {
            let member = &self.members[i];
            proof {
                assert(self.members@.take(i + 1).drop_last() =~= self.members@.take(i as int));
                assert(self.members@.take(i + 1).last() == *member);
            }
            let username = &member.user.name;
            if starts_with_cased(prefix, case_sensitive, username.as_str()) {
                let e = (member, username.clone());
                proof {
                    lemma_entries_view_push(members@, e);
                }
                members.push(e);
            } else {
                match &member.nick {
                    Some(nick) => {
                        if starts_with_cased(prefix, case_sensitive, nick.as_str()) {
                            let e = (member, nick.clone());
                            proof {
                                lemma_entries_view_push(members@, e);
                            }
                            members.push(e);
                        }
                    },
                    None => {},
                }
            }
            i += 1;
        }
        proof {
            assert(self.members@.take(self.members@.len() as int) =~= self.members@);
        }
        if sorted {
            members = sort_by_closeness(prefix, &members);
        }
        members
    }
    /// Retrieves all members containing a given text as either account name or
    /// nickname, with a priority on the account name, each with the name that matched.
    ///
    /// If the substring is "yla", following results are possible: "zeyla", "meiyla",
    /// "yladenisyla". When `case_sensitive`, "zeYLa", "meiyLa", "LYAdenislyA" are not
    /// found. `sorted` decides whether the best early match of the search term should be
    /// the criteria to sort the result: for the substring "zey" the unsorted result
    /// "azey", "zey", "zeyla", "zeylaa", "zeyzeyzey" would be sorted "zey", "azey",
    /// "zeyla", "zeylaa", "zeyzeyzey".
    pub fn members_containing(&self, substring: &str, case_sensitive: bool, sorted: bool) -> (r:
        Vec<(&Member, String)>)
        ensures
            entries_view(r@) == search_result(
                self.members@,
                name_or_nick_entry(
                    |name: Seq<char>| text_contains(substring@, case_sensitive, name),
                ),
                substring@,
                sorted,
            ),
    {
        let ghost entry = name_or_nick_entry(
            |name: Seq<char>| text_contains(substring@, case_sensitive, name),
        );
        let mut members: Vec<(&Member, String)> = Vec::new();
        let mut i: usize = 0;
        while i < self.members.len()
            invariant
                i <= self.members@.len(),
                entry == name_or_nick_entry(
                    |name: Seq<char>| text_contains(substring@, case_sensitive, name),
                ),
                entries_view(members@) == filter_map_seq(self.members@.take(i as int), entry),
            decreases self.members.len() - i,
        {
            let member = &self.members[i];
            proof {
                assert(self.members@.take(i + 1).drop_last() =~= self.members@.take(i as int));
                assert(self.members@.take(i + 1).last() == *member);
            }
            let username = &member.user.name;
            if contains_cased(substring, case_sensitive, username.as_str()) {
                let e = (member, username.clone());
                proof {
                    lemma_entries_view_push(members@, e);
                }
                members.push(e);
            } else {
                match &member.nick {
                    Some(nick) => {
                        if contains_cased(substring, case_sensitive, nick.as_str()) {
                            let e = (member, nick.clone());
                            proof {
                                lemma_entries_view_push(members@, e);
                            }
                            members.push(e);
                        }
                    },
                    None => {},
                }
            }
            i += 1;
        }
        proof {
            assert(self.members@.take(self.members@.len() as int) =~= self.members@);
        }
        if sorted {
            members = sort_by_closeness(substring, &members);
        }
        members
    }

    /// Retrieves the members whose account name contains a given text, each with that
    /// name.
    ///
    /// If the substring is "yla", following results are possible: "zeyla", "meiyla",
    /// "yladenisyla". When `case_sensitive`, "zeYLa", "meiyLa", "LYAdenislyA" are not
    /// found. `sorted` sorts the result by the best early match of the search term: for
    /// the substring "zey" the unsorted result "azey", "zey", "zeyla", "zeylaa",
    /// "zeyzeyzey" would be sorted "zey", "azey", "zeyla", "zeylaa", "zeyzeyzey".
    pub fn members_username_containing(
        &self,
        substring: &str,
        case_sensitive: bool,
        sorted: bool,
    ) -> (r: Vec<(&Member, String)>)
        ensures
            entries_view(r@) == search_result(
                self.members@,
                username_entry(|name: Seq<char>| text_contains(substring@, case_sensitive, name)),
                substring@,
                sorted,
            ),
    {
        let ghost entry = username_entry(
            |name: Seq<char>| text_contains(substring@, case_sensitive, name),
        );
        let mut members: Vec<(&Member, String)> = Vec::new();
        let mut i: usize = 0;
        while i < self.members.len()
            invariant
                i <= self.members@.len(),
                entry == username_entry(
                    |name: Seq<char>| text_contains(substring@, case_sensitive, name),
                ),
                entries_view(members@) == filter_map_seq(self.members@.take(i as int), entry),
            decreases self.members.len() - i,
        {
            let member = &self.members[i];
            proof {
                assert(self.members@.take(i + 1).drop_last() =~= self.members@.take(i as int));
                assert(self.members@.take(i + 1).last() == *member);
            }
            let name = &member.user.name;
            if contains_cased(substring, case_sensitive, name.as_str()) {
                let e = (member, name.clone());
                proof {
                    lemma_entries_view_push(members@, e);
                }
                members.push(e);
            }
            i += 1;
        }
        proof {
            assert(self.members@.take(self.members@.len() as int) =~= self.members@);
        }
        if sorted {
            members = sort_by_closeness(substring, &members);
        }
        members
    }

    /// Retrieves the members whose nickname contains a given text, each with the
    /// nickname; a member without a nickname is searched by account name.
    ///
    /// If the substring is "yla", following results are possible: "zeyla", "meiyla",
    /// "yladenisyla". When `case_sensitive`, "zeYLa", "meiyLa", "LYAdenislyA" are not
    /// found. `sorted` sorts the result by the best early match of the search term: for
    /// the substring "zey" the unsorted result "azey", "zey", "zeyla", "zeylaa",
    /// "zeyzeyzey" would be sorted "zey", "azey", "zeyla", "zeylaa", "zeyzeyzey".
    pub fn members_nick_containing(&self, substring: &str, case_sensitive: bool, sorted: bool) -> (r:
        Vec<(&Member, String)>)
        ensures
            entries_view(r@) == search_result(
                self.members@,
                nick_entry(|name: Seq<char>| text_contains(substring@, case_sensitive, name)),
                substring@,
                sorted,
            ),
    {
        let ghost entry = nick_entry(
            |name: Seq<char>| text_contains(substring@, case_sensitive, name),
        );
        let mut members: Vec<(&Member, String)> = Vec::new();
        let mut i: usize = 0;
        while i < self.members.len()
            invariant
                i <= self.members@.len(),
                entry == nick_entry(
                    |name: Seq<char>| text_contains(substring@, case_sensitive, name),
                ),
                entries_view(members@) == filter_map_seq(self.members@.take(i as int), entry),
            decreases self.members.len() - i,
        {
            let member = &self.members[i];
            proof {
                assert(self.members@.take(i + 1).drop_last() =~= self.members@.take(i as int));
                assert(self.members@.take(i + 1).last() == *member);
            }
            let nick = match &member.nick {
                Some(nick) => nick.clone(),
                None => member.user.name.clone(),
            };
            if contains_cased(substring, case_sensitive, nick.as_str()) {
                let e = (member, nick);
                proof {
                    lemma_entries_view_push(members@, e);
                }
                members.push(e);
            }
            i += 1;
        }
        proof {
            assert(self.members@.take(self.members@.len() as int) =~= self.members@);
        }
        if sorted {
            members = sort_by_closeness(substring, &members);
        }
        members
    }
}

/// A name to look a member up by, split into the name and the discriminator after its
/// last `#` when that part reads as a `u16`; otherwise the whole text without one.
pub open spec fn split_name(s: Seq<char>) -> (Seq<char>, Option<u16>) {
    match last_index_of(s, '#') {
        Some(p) => match parse_u16(s.skip(p + 1)) {
            Some(d) => (s.take(p), Some(d)),
            None => (s, None),
        },
        None => (s, None),
    }
}

/// The member has the account name `name` and, when one is given, the discriminator.
pub open spec fn named(name: Seq<char>, discrim: Option<u16>) -> spec_fn(Member) -> bool {
    |m: Member|
        m.user.name@ == name && match discrim {
            Some(d) => m.user.discriminator == d,
            None => true,
        }
}

/// The member has the nickname `name`.
pub open spec fn nicknamed(name: Seq<char>) -> spec_fn(Member) -> bool {
    |m: Member|
        match m.nick {
            Some(n) => n@ == name,
            None => false,
        }
}

/// The member found by [`Guild::member_named`]: the first with the account name and
/// discriminator that the text gives, else the first whose nickname is the whole text.
pub open spec fn member_named_result(members: Seq<Member>, full: Seq<char>) -> Option<Member> {
    let (name, discrim) = split_name(full);
    match first_match(members, named(name, discrim)) {
        Some(m) => Some(m),
        None => first_match(members, nicknamed(full)),
    }
}

/// The presence of the user `uid` among `presences`, if any.
pub open spec fn presence_of(presences: Seq<Presence>, uid: UserId) -> Option<Presence> {
    first_match(presences, |p: Presence| p.user_id == uid)
}

/// Keeps a member whose presence shows `status`.
pub open spec fn with_status(status: OnlineStatus, presences: Seq<Presence>) -> spec_fn(Member) -> Option<
    Member,
> {
    |m: Member|
        match presence_of(presences, m.user.id) {
            Some(p) => if p.status == status {
                Some(m)
            } else {
                None
            },
            None => None,
        }
}

/// The first member satisfying `named(name, discrim)`.
fn find_named<'a>(members: &'a Vec<Member>, name: &str, discrim: Option<u16>) -> (r: Option<&'a Member>)
    ensures
        match r {
            Some(m) => first_match(members@, named(name@, discrim)) == Some(*m),
            None => first_match(members@, named(name@, discrim)).is_none(),
        },
{
    let mut i: usize = 0;
    while i < members.len()
        invariant
            i <= members@.len(),
            forall|j: int| 0 <= j < i ==> !(named(name@, discrim))(#[trigger] members@[j]),
        decreases members.len() - i,
    {
        let member = &members[i];
        let name_matches = text_eq(member.user.name.as_str(), name);
        let discrim_matches = match discrim {
            Some(d) => member.user.discriminator == d,
            None => true,
        };
        if name_matches && discrim_matches {
            proof {
                lemma_first_match_at(members@, named(name@, discrim), i as int);
            }
            return Some(member);
        }
        i += 1;
    }
    proof {
        lemma_first_match_none(members@, named(name@, discrim));
    }
    None
}

/// The first member with the nickname `name`.
fn find_nicknamed<'a>(members: &'a Vec<Member>, name: &str) -> (r: Option<&'a Member>)
    ensures
        match r {
            Some(m) => first_match(members@, nicknamed(name@)) == Some(*m),
            None => first_match(members@, nicknamed(name@)).is_none(),
        },
{
    let mut i: usize = 0;
    while i < members.len()
        invariant
            i <= members@.len(),
            forall|j: int| 0 <= j < i ==> !(nicknamed(name@))(#[trigger] members@[j]),
        decreases members.len() - i,
    {
        let member = &members[i];
        let found = match &member.nick {
            Some(nick) => text_eq(nick.as_str(), name),
            None => false,
        };
        if found {
            proof {
                lemma_first_match_at(members@, nicknamed(name@), i as int);
            }
            return Some(member);
        }
        i += 1;
    }
    proof {
        lemma_first_match_none(members@, nicknamed(name@));
    }
    None
}

/// The first presence of the user `uid`.
fn find_presence(presences: &Vec<Presence>, uid: UserId) -> (r: Option<&Presence>)
    ensures
        match r {
            Some(p) => presence_of(presences@, uid) == Some(*p),
            None => presence_of(presences@, uid).is_none(),
        },
{
    let mut i: usize = 0;
    while i < presences.len()
        invariant
            i <= presences@.len(),
            forall|j: int|
                0 <= j < i ==> !((|p: Presence| p.user_id == uid)(#[trigger] presences@[j])),
        decreases presences.len() - i,
    {
        if presences[i].user_id == uid {
            proof {
                lemma_first_match_at(presences@, |p: Presence| p.user_id == uid, i as int);
            }
            return Some(&presences[i]);
        }
        i += 1;
    }
    proof {
        lemma_first_match_none(presences@, |p: Presence| p.user_id == uid);
    }
    None
}

impl Guild {
    /// Retrieves the first member found that matches the name - with an optional
    /// discriminator - provided.
    ///
    /// Searching with a discriminator given ("zey#5479") is the most precise form of
    /// lookup. If a member can not be found by username or username#discriminator, then
    /// a search is done for the nickname; there the hash and everything after it is part
    /// of the searched nickname.
    pub fn member_named(&self, name: &str) -> (r: Option<&Member>)
        ensures
            match r {
                Some(m) => member_named_result(self.members@, name@) == Some(*m),
                None => member_named_result(self.members@, name@).is_none(),
            },
    {
        let n = name.unicode_len();
        proof {
            lemma_last_index_of_bound(name@, '#');
        }
        let found = match last_index_of_char(name, '#') {
            Some(pos) => {
                let suffix = name.substring_char(pos + 1, n);
                match parse_u16_text(suffix) {
                    Some(d) => find_named(&self.members, name.substring_char(0, pos), Some(d)),
                    None => find_named(&self.members, name, None),
                }
            },
            None => find_named(&self.members, name, None),
        };
        match found {
            Some(member) => Some(member),
            None => find_nicknamed(&self.members, name),
        }
    }

    /// Gets all the members whose presence shows the given status, in member order.
    pub fn members_with_status(&self, status: OnlineStatus) -> (r: Vec<&Member>)
        ensures
            r@.map_values(|m: &Member| *m) == filter_map_seq(
                self.members@,
                with_status(status, self.presences@),
            ),
    {
        let mut members: Vec<&Member> = Vec::new();
        let mut i: usize = 0;
        while i < self.members.len()
            invariant
                i <= self.members@.len(),
                members@.map_values(|m: &Member| *m) == filter_map_seq(
                    self.members@.take(i as int),
                    with_status(status, self.presences@),
                ),
            decreases self.members.len() - i,
        {
            let member = &self.members[i];
            proof {
                assert(self.members@.take(i + 1).drop_last() =~= self.members@.take(i as int));
                assert(self.members@.take(i + 1).last() == *member);
            }
            if let Some(presence) = find_presence(&self.presences, member.user.id) {
                if status == presence.status {
                    proof {
                        assert(members@.push(member).map_values(|m: &Member| *m) =~= members@.map_values(
                            |m: &Member| *m,
                        ).push(*member));
                    }
                    members.push(member);
                }
            }
            i += 1;
        }
        proof {
            assert(self.members@.take(self.members@.len() as int) =~= self.members@);
        }
        members
    }

    /// Obtain a reference to a role by its name; the first such role.
    pub fn role_by_name(&self, role_name: &str) -> (r: Option<&Role>)
        ensures
            match r {
                Some(role) => first_match(self.roles@, |x: Role| x.name@ == role_name@) == Some(
                    *role,
                ),
                None => first_match(self.roles@, |x: Role| x.name@ == role_name@).is_none(),
            },
    {
        let mut i: usize = 0;
        while i < self.roles.len()
            invariant
                i <= self.roles@.len(),
                forall|j: int|
                    0 <= j < i ==> !((|x: Role| x.name@ == role_name@)(#[trigger] self.roles@[j])),
            decreases self.roles.len() - i,
        {
            if text_eq(role_name, self.roles[i].name.as_str()) {
                proof {
                    lemma_first_match_at(self.roles@, |x: Role| x.name@ == role_name@, i as int);
                }
                return Some(&self.roles[i]);
            }
            i += 1;
        }
        proof {
            lemma_first_match_none(self.roles@, |x: Role| x.name@ == role_name@);
        }
        None
    }

    /// The id of the first channel of the guild with the given name.
    pub fn channel_id_from_name(&self, name: &str) -> (r: Option<ChannelId>)
        ensures
            r == match first_match(self.channels@, |c: GuildChannel| c.name@ == name@) {
                Some(c) => Some(c.id),
                None => None,
            },
    {
        let mut i: usize = 0;
        while i < self.channels.len()
            invariant
                i <= self.channels@.len(),
                forall|j: int|
                    0 <= j < i ==> !((|c: GuildChannel| c.name@ == name@)(
                        #[trigger] self.channels@[j],
                    )),
            decreases self.channels.len() - i,
        {
            if text_eq(self.channels[i].name.as_str(), name) {
                proof {
                    lemma_first_match_at(self.channels@, |c: GuildChannel| c.name@ == name@, i as int);
                }
                return Some(self.channels[i].id);
            }
            i += 1;
        }
        proof {
            lemma_first_match_none(self.channels@, |c: GuildChannel| c.name@ == name@);
        }
        None
    }
}

/// Being a closer match is a strict weak order: words rank by where their first match
/// of `origin` ends, and words without a match rank last.
pub proof fn lemma_closeness_is_strict_weak_order(origin: Seq<char>)
    ensures
        strict_weak_order(closeness(origin)),
{
}

/// Sorting a search result keeps every entry, and leaves no entry before an earlier one
/// whose name is a closer match.
pub proof fn lemma_sorted_search_result(
    members: Seq<Member>,
    entry: spec_fn(Member) -> Option<(Member, Seq<char>)>,
    origin: Seq<char>,
)
    ensures
        search_result(members, entry, origin, true).to_multiset() == search_result(
            members,
            entry,
            origin,
            false,
        ).to_multiset(),
        ordered_by(search_result(members, entry, origin, true), closeness(origin)),
{
    lemma_closeness_is_strict_weak_order(origin);
    lemma_insertion_sorted_multiset(filter_map_seq(members, entry), closeness(origin));
    lemma_insertion_sorted_ordered(filter_map_seq(members, entry), closeness(origin));
}

/// Sorting a search result is stable: the entries whose names are equally close matches
/// of `origin` as the entry `e` keep the order they have in the unsorted result.
pub proof fn lemma_sorted_search_keeps_ties(
    members: Seq<Member>,
    entry: spec_fn(Member) -> Option<(Member, Seq<char>)>,
    origin: Seq<char>,
    e: (Member, Seq<char>),
)
    ensures
        search_result(members, entry, origin, true).filter(
            |y: (Member, Seq<char>)| equivalent(closeness(origin), y, e),
        ) == search_result(members, entry, origin, false).filter(
            |y: (Member, Seq<char>)| equivalent(closeness(origin), y, e),
        ),
{
    lemma_closeness_is_strict_weak_order(origin);
    lemma_insertion_sorted_stable(filter_map_seq(members, entry), closeness(origin), e);
}

/// A name that begins with `prefix` matches it where the prefix ends: at the name's own
/// byte length.
proof fn lemma_match_end_of_prefixed(prefix: Seq<char>, name: Seq<char>)
    requires
        starts_with_bytes(utf8(name), utf8(prefix)),
    ensures
        match_end(prefix, name) == Some(utf8(name).len() as int),
{
}

/// In a case-sensitive search by prefix, sorting orders the entries by the byte length of
/// their names: every name begins with the prefix, so where its match ends is its length.
pub proof fn lemma_sorted_prefix_search_by_length(members: Seq<Member>, prefix: Seq<char>)
    ensures
        ({
            let r = search_result(
                members,
                name_or_nick_entry(|name: Seq<char>| text_starts(prefix, true, name)),
                prefix,
                true,
            );
            forall|i: int, j: int|
                0 <= i < j < r.len() ==> utf8(#[trigger] r[i].1).len() <= utf8(
                    #[trigger] r[j].1,
                ).len()
        }),
{
    let test = |name: Seq<char>| text_starts(prefix, true, name);
    let entry = name_or_nick_entry(test);
    let u = filter_map_seq(members, entry);
    let r = search_result(members, entry, prefix, true);
    lemma_sorted_search_result(members, entry, prefix);
    lemma_search_entries_picked(members, entry);
    assert forall|x: (Member, Seq<char>)| r.contains(x) implies starts_with_bytes(
        utf8(x.1),
        utf8(prefix),
    ) by {
        r.to_multiset_ensures();
        u.to_multiset_ensures();
        assert(u.to_multiset().count(x) > 0);
        let k = choose|k: int| 0 <= k < u.len() && u[k] == x;
        let i = choose|i: int|
            0 <= i < members.len() && entry(#[trigger] members[i]) == Some(#[trigger] u[k]);
        assert(test(x.1));
    }
    assert forall|i: int, j: int| 0 <= i < j < r.len() implies utf8(#[trigger] r[i].1).len()
        <= utf8(#[trigger] r[j].1).len() by {
        assert(r.contains(r[i]));
        assert(r.contains(r[j]));
        lemma_match_end_of_prefixed(prefix, r[i].1);
        lemma_match_end_of_prefixed(prefix, r[j].1);
        assert(!(closeness(prefix))(r[j], r[i]));
    }
}

/// Looking a member up by name finds the first member with the account name (and, when
/// the text gives one, the discriminator) that the text spells, whatever the nicknames of
/// the members.
pub proof fn lemma_member_named_prefers_account_name(members: Seq<Member>, full: Seq<char>, i: int)
    requires
        0 <= i < members.len(),
        (named(split_name(full).0, split_name(full).1))(members[i]),
        forall|j: int|
            0 <= j < i ==> !(named(split_name(full).0, split_name(full).1))(#[trigger] members[j]),
    ensures
        member_named_result(members, full) == Some(members[i]),
{
    lemma_first_match_at(members, named(split_name(full).0, split_name(full).1), i);
}

/// For a text without `#`, looking a member up by name finds the first member whose
/// account name is the text; only when no account name is the text does it find the first
/// member whose nickname is.
pub proof fn lemma_member_named_plain_text(members: Seq<Member>, full: Seq<char>)
    requires
        !full.contains('#'),
    ensures
        (exists|i: int| 0 <= i < members.len() && (#[trigger] members[i]).user.name@ == full)
            ==> member_named_result(members, full) == first_match(
            members,
            |m: Member| m.user.name@ == full,
        ),
        (forall|i: int| 0 <= i < members.len() ==> (#[trigger] members[i]).user.name@ != full)
            ==> member_named_result(members, full) == first_match(
            members,
            |m: Member|
                match m.nick {
                    Some(n) => n@ == full,
                    None => false,
                },
        ),
{
    lemma_last_index_of_bound(full, '#');
    if last_index_of(full, '#') is Some {
        let p = last_index_of(full, '#').unwrap();
        assert(full.contains('#')) by {
            assert(full[p] == '#');
        }
    }
    assert(split_name(full) == (full, None::<u16>));
    assert(named(full, None) =~= (|m: Member| m.user.name@ == full));
    assert(nicknamed(full) =~= (|m: Member|
        match m.nick {
            Some(n) => n@ == full,
            None => false,
        }));
    if forall|i: int| 0 <= i < members.len() ==> (#[trigger] members[i]).user.name@ != full {
        lemma_first_match_none(members, |m: Member| m.user.name@ == full);
    } else {
        let i = choose|i: int| 0 <= i < members.len() && (#[trigger] members[i]).user.name@ == full;
        lemma_first_match_exists(members, |m: Member| m.user.name@ == full, i);
    }
}

/// Every entry of a search comes from a member of the guild that the search picks, with
/// the name it picks.
pub proof fn lemma_search_entries_picked(
    members: Seq<Member>,
    entry: spec_fn(Member) -> Option<(Member, Seq<char>)>,
)
    ensures
        forall|k: int|
            0 <= k < filter_map_seq(members, entry).len() ==> exists|i: int|
                0 <= i < members.len() && entry(#[trigger] members[i]) == Some(
                    #[trigger] filter_map_seq(members, entry)[k],
                ),
    decreases members.len(),
{
    if members.len() > 0 {
        let rest = members.drop_last();
        lemma_search_entries_picked(rest, entry);
        let r = filter_map_seq(members, entry);
        assert forall|k: int| 0 <= k < r.len() implies exists|i: int|
            0 <= i < members.len() && entry(#[trigger] members[i]) == Some(#[trigger] r[k]) by {
            if k < filter_map_seq(rest, entry).len() {
                let i = choose|i: int|
                    0 <= i < rest.len() && entry(#[trigger] rest[i]) == Some(
                        #[trigger] filter_map_seq(rest, entry)[k],
                    );
                assert(members[i] == rest[i]);
            } else {
                assert(members[members.len() - 1] == members.last());
            }
        }
    }
}

} // verus!
