//! The service directory: what the supervisor lists of this family, tagged
//! by scope.
//!
//! The supervisor is asked twice, once per scope. Each answer is a text of
//! lines whose first word names a unit file. An answer that could not be had
//! counts as empty. Nothing is removed from the merged list: a name that
//! both scopes report stands in it twice.

use vstd::prelude::*;
use crate::names::{has_prefix, lemma_family_prefix, lemma_unit_suffix, unit_suffix};
use crate::text::{
    chars_of, ends_with, first_word, leading_word, lines_of, optional_view, split, starts_with,
    string_of,
    strip_all_suffix, strip_suffix_repeated, texts,
};

verus! {

/// Whether a unit is managed for one user or for the whole system.
#[derive(Clone, Copy, Debug, PartialEq, Eq, Structural)]
pub enum Scope {
    User,
    System,
}

/// One service as the supervisor reports it.
#[derive(Debug, PartialEq, Eq)]
pub struct ServiceRecord {
    pub name: String,
    pub scope: Scope,
}

/// What a `ServiceRecord` stands for.
pub struct RecordModel {
    pub name: Seq<char>,
    pub scope: Scope,
}

impl View for ServiceRecord {
    type V = RecordModel;

    open spec fn view(&self) -> RecordModel {
        RecordModel { name: self.name@, scope: self.scope }
    }
}

impl ServiceRecord {
    /// A record with the same name and scope.
    pub fn duplicate(&self) -> (out: ServiceRecord)
        ensures
            out@ == self@,
    {
        ServiceRecord { name: self.name.clone(), scope: self.scope }
    }
}

/// What a list of records stands for.
pub open spec fn models(records: Seq<ServiceRecord>) -> Seq<RecordModel> {
    records.map_values(|r: ServiceRecord| r@)
}

/// The text that names a scope.
pub open spec fn scope_text(scope: Scope) -> Seq<char> {
    match scope {
        Scope::User => "user"@,
        Scope::System => "system"@,
    }
}

/// The service that a line of the supervisor's listing names: the line's
/// first word, where that word carries the family prefix and ends in the
/// unit suffix, with every trailing unit suffix removed.
pub open spec fn parsed_unit(line: Seq<char>) -> Option<Seq<char>> {
    let word = first_word(line);
    if has_prefix(word) && unit_suffix().is_suffix_of(word) {
        Some(strip_all_suffix(word, unit_suffix()))
    } else {
        None
    }
}

/// The records that `lines` name, in the order of the lines.
pub open spec fn listed(lines: Seq<Seq<char>>, scope: Scope) -> Seq<RecordModel>
    decreases lines.len(),
{
    if lines.len() == 0 {
        Seq::empty()
    } else {
        let before = listed(lines.drop_last(), scope);
        match parsed_unit(lines.last()) {
            Some(name) => before.push(RecordModel { name, scope }),
            None => before,
        }
    }
}

/// The records of one scope's answer; none where the query failed.
pub open spec fn scope_listing(answer: Option<Seq<char>>, scope: Scope) -> Seq<RecordModel> {
    match answer {
        Some(text) => listed(lines_of(text), scope),
        None => Seq::empty(),
    }
}

/// The merged directory: the user scope's records, then the system scope's.
pub open spec fn directory_of(user: Option<Seq<char>>, system: Option<Seq<char>>) -> Seq<
    RecordModel,
> {
    scope_listing(user, Scope::User) + scope_listing(system, Scope::System)
}

/// Removing trailing unit suffixes from a prefixed name leaves the prefix in
/// place.
pub proof fn lemma_strip_keeps_prefix(word: Seq<char>)
    requires
        has_prefix(word),
    ensures
        has_prefix(strip_all_suffix(word, unit_suffix())),
    decreases word.len(),
{
    lemma_family_prefix();
    lemma_unit_suffix();
    let suffix = unit_suffix();
    if suffix.is_suffix_of(word) {
        let cut = word.len() - suffix.len();
        let rest = word.take(cut);
        assert(word.subrange(0, 6) == crate::names::family_prefix());
        assert(word.subrange(cut, word.len() as int) == suffix);
        assert(word[cut] == word.subrange(cut, word.len() as int)[0]);
        assert(word[cut] == '.');
        if cut < 6 {
            assert(word[cut] == word.subrange(0, 6)[cut]);
            assert(false);
        }
        assert(rest.subrange(0, 6) == word.subrange(0, 6));
        lemma_strip_keeps_prefix(rest);
    }
}

/// Every service that a line names carries the family prefix.
pub proof fn lemma_parsed_unit_carries_prefix(line: Seq<char>)
    ensures
        parsed_unit(line) matches Some(name) ==> has_prefix(name),
{
    let word = first_word(line);
    if has_prefix(word) && unit_suffix().is_suffix_of(word) {
        lemma_strip_keeps_prefix(word);
    }
}

/// Every record of a listing has the listing's scope and a name that
/// carries the family prefix.
pub proof fn lemma_listed_records(lines: Seq<Seq<char>>, scope: Scope, i: int)
    requires
        0 <= i < listed(lines, scope).len(),
    ensures
        listed(lines, scope)[i].scope == scope,
        has_prefix(listed(lines, scope)[i].name),
    decreases lines.len(),
{
    if lines.len() > 0 {
        let before = listed(lines.drop_last(), scope);
        lemma_parsed_unit_carries_prefix(lines.last());
        if i < before.len() {
            lemma_listed_records(lines.drop_last(), scope, i);
        }
    }
}

/// In the merged directory the user scope's records come first: a record
/// stands before the user listing's length exactly if its scope is `User`.
/// Every name carries the family prefix.
pub proof fn lemma_directory_order(user: Option<Seq<char>>, system: Option<Seq<char>>, i: int)
    requires
        0 <= i < directory_of(user, system).len(),
    ensures
        i < scope_listing(user, Scope::User).len() <==> directory_of(user, system)[i].scope
            == Scope::User,
        has_prefix(directory_of(user, system)[i].name),
{
    let first = scope_listing(user, Scope::User);
    if i < first.len() {
        lemma_listed_records(lines_of(user.unwrap()), Scope::User, i);
    } else {
        lemma_listed_records(lines_of(system.unwrap()), Scope::System, i - first.len());
    }
}

/// The record that `line` of the supervisor's listing names, if it names a
/// unit of this family.
pub fn parse_corky_service(line: &str, scope: Scope) -> (out: Option<ServiceRecord>)
    ensures
        match parsed_unit(line@) {
            Some(name) => out matches Some(r) && r@ == (RecordModel { name, scope }),
            None => out is None,
        },
{
    let chars = chars_of(line);
    parse_line(chars.as_slice(), scope)
}

fn parse_line(line: &[char], scope: Scope) -> (out: Option<ServiceRecord>)
    ensures
        match parsed_unit(line@) {
            Some(name) => out matches Some(r) && r@ == (RecordModel { name, scope }),
            None => out is None,
        },
{
    match leading_word(line) {
        None => {
            assert(!has_prefix(first_word(line@))) by {
                lemma_family_prefix();
            }
            None
        },
        Some(word) => {
            let prefix = chars_of("corky-");
            let suffix = chars_of(".service");
            if starts_with(word.as_slice(), prefix.as_slice()) && ends_with(
                word.as_slice(),
                suffix.as_slice(),
            ) {
                let name = strip_suffix_repeated(word.as_slice(), suffix.as_slice());
                Some(ServiceRecord { name: string_of(name.as_slice()), scope })
            } else {
                None
            }
        },
    }
}

/// Adds to `into` the records that `answer` names.
fn append_listing(into: &mut Vec<ServiceRecord>, answer: &str, scope: Scope)
    ensures
        models(final(into)@) == models(old(into)@) + listed(lines_of(answer@), scope),
{
    let chars = chars_of(answer);
    let lines = split(chars.as_slice(), '\n');
    let ghost start = models(into@);
    let ghost all = texts(lines@);
    let mut i: usize = 0;
    assert(all.take(0) == Seq::<Seq<char>>::empty());
    while i < lines.len()
        invariant
            i <= lines.len(),
            all == texts(lines@),
            models(into@) == start + listed(all.take(i as int), scope),
        decreases lines.len() - i,
    {
        let ghost before = models(into@);
        assert(all.take(i + 1).drop_last() == all.take(i as int));
        assert(all.take(i + 1).last() == lines@[i as int]@);
        match parse_line(lines[i].as_slice(), scope) {
            Some(record) => {
                into.push(record);
                assert(models(into@) == before.push(record@));
            },
            None => {},
        }
        i += 1;
    }
    assert(all.take(lines.len() as int) == all);
}

/// The merged directory of both scopes: the records that the user scope's
/// answer names, then those of the system scope's. `None` stands for a
/// query that failed; it adds nothing and does not disturb the other scope.
pub fn list_corky_services(user: Option<&str>, system: Option<&str>) -> (out: Vec<ServiceRecord>)
    ensures
        models(out@) == directory_of(optional_view(user), optional_view(system)),
{
    let mut out: Vec<ServiceRecord> = Vec::new();
    assert(models(out@) == Seq::<RecordModel>::empty());
    match user {
        Some(text) => {
            append_listing(&mut out, text, Scope::User);
        },
        None => {},
    }
    assert(models(out@) == scope_listing(optional_view(user), Scope::User));
    match system {
        Some(text) => {
            append_listing(&mut out, text, Scope::System);
        },
        None => {},
    }
    out
}

/// The text that names `scope`.
pub fn scope_name(scope: Scope) -> (out: &'static str)
    ensures
        out@ == scope_text(scope),
{
    match scope {
        Scope::User => "user",
        Scope::System => "system",
    }
}

} // verus!
