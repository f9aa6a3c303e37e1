//! The family prefix and the two directions of its transform.
//!
//! A name under which the supervisor knows a unit always carries the family
//! prefix. `with_prefix` adds it where it is absent, `without_prefix` takes
//! it off where it is present.

use vstd::prelude::*;
use crate::text::{chars_of, chain, slice_of, starts_with, string_of};

verus! {

/// The prefix that marks the units of this family.
pub open spec fn family_prefix() -> Seq<char> {
    "corky-"@
}

/// The ending of a unit's file name.
pub open spec fn unit_suffix() -> Seq<char> {
    ".service"@
}

/// Whether `name` carries the family prefix.
pub open spec fn has_prefix(name: Seq<char>) -> bool {
    family_prefix().is_prefix_of(name)
}

/// `name` with the family prefix added, unless it carries it already.
pub open spec fn with_prefix(name: Seq<char>) -> Seq<char> {
    if has_prefix(name) {
        name
    } else {
        family_prefix() + name
    }
}

/// `name` with the family prefix taken off once, where it carries it.
pub open spec fn without_prefix(name: Seq<char>) -> Seq<char> {
    if has_prefix(name) {
        name.skip(family_prefix().len() as int)
    } else {
        name
    }
}

/// The unit that belongs to the service `name`.
pub open spec fn unit_name(name: Seq<char>) -> Seq<char> {
    name + unit_suffix()
}

/// The family prefix has six characters.
pub proof fn lemma_family_prefix()
    ensures
        family_prefix() == seq!['c', 'o', 'r', 'k', 'y', '-'],
{
    reveal_strlit("corky-");
    assert(family_prefix() =~= seq!['c', 'o', 'r', 'k', 'y', '-']);
}

/// The unit suffix has eight characters, the first of them a dot.
pub proof fn lemma_unit_suffix()
    ensures
        unit_suffix() == seq!['.', 's', 'e', 'r', 'v', 'i', 'c', 'e'],
{
    reveal_strlit(".service");
    assert(unit_suffix() =~= seq!['.', 's', 'e', 'r', 'v', 'i', 'c', 'e']);
}

/// A name that went through `with_prefix` carries the prefix, and a second
/// pass changes nothing.
pub proof fn lemma_with_prefix_carries(name: Seq<char>)
    ensures
        has_prefix(with_prefix(name)),
        with_prefix(with_prefix(name)) == with_prefix(name),
{
    if !has_prefix(name) {
        assert((family_prefix() + name).subrange(0, family_prefix().len() as int)
            =~= family_prefix());
    }
}

/// Taking the prefix off a name to which `with_prefix` added it gives the
/// name back.
pub proof fn lemma_prefix_round_trip(name: Seq<char>)
    requires
        !has_prefix(name),
    ensures
        without_prefix(with_prefix(name)) == name,
{
    lemma_with_prefix_carries(name);
    assert((family_prefix() + name).skip(family_prefix().len() as int) =~= name);
}

/// Adding the prefix back to what `without_prefix` left of a prefixed name
/// gives the name back, unless the rest carries the prefix itself.
pub proof fn lemma_prefix_restore(name: Seq<char>)
    requires
        has_prefix(name),
        !has_prefix(without_prefix(name)),
    ensures
        with_prefix(without_prefix(name)) == name,
{
    let n = family_prefix().len() as int;
    assert(family_prefix() + name.skip(n) =~= name) by {
        assert(name.subrange(0, n) =~= family_prefix());
    }
}

/// Whether `name` and its spelling without the prefix name the same
/// service: `with_prefix` sends both to one name.
pub proof fn lemma_prefix_presence_is_immaterial(name: Seq<char>)
    requires
        !has_prefix(name),
    ensures
        with_prefix(family_prefix() + name) == with_prefix(name),
{
    assert((family_prefix() + name).subrange(0, family_prefix().len() as int)
        =~= family_prefix());
}

/// Whether `name` carries the family prefix.
pub fn carries_prefix(name: &str) -> (b: bool)
    ensures
        b == has_prefix(name@),
{
    let chars = chars_of(name);
    let prefix = chars_of("corky-");
    starts_with(chars.as_slice(), prefix.as_slice())
}

/// `name` with the family prefix added, unless it carries it already.
pub fn prefixed(name: &str) -> (out: String)
    ensures
        out@ == with_prefix(name@),
{
    let chars = chars_of(name);
    let prefix = chars_of("corky-");
    if starts_with(chars.as_slice(), prefix.as_slice()) {
        string_of(chars.as_slice())
    } else {
        let full = chain(prefix.as_slice(), chars.as_slice());
        string_of(full.as_slice())
    }
}

/// `name` with the family prefix taken off once, where it carries it.
pub fn unprefixed(name: &str) -> (out: String)
    ensures
        out@ == without_prefix(name@),
{
    let chars = chars_of(name);
    let prefix = chars_of("corky-");
    if starts_with(chars.as_slice(), prefix.as_slice()) {
        let rest = slice_of(chars.as_slice(), prefix.len(), chars.len());
        string_of(rest.as_slice())
    } else {
        string_of(chars.as_slice())
    }
}

/// The unit that belongs to the service `name`.
pub fn unit_of(name: &str) -> (out: String)
    ensures
        out@ == unit_name(name@),
{
    let chars = chars_of(name);
    let suffix = chars_of(".service");
    let full = chain(chars.as_slice(), suffix.as_slice());
    string_of(full.as_slice())
}

} // verus!
