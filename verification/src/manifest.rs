//! The package manifest: the marker that makes a package installable, the
//! package's name and description, and the installation target derived from
//! them.
//!
//! The manifest is read as lines of text. The `[package]` section runs from
//! the first line that begins with that header to the next line that is a
//! header in square brackets. In it, the first line that begins with the
//! key and carries a value in double quotes after its first `=` gives the
//! value.

use vstd::prelude::*;
use crate::names::{lemma_with_prefix_carries, has_prefix, unit_name, with_prefix};
use crate::text::{
    after_first, chars_of, chain, contains, lines_of, occurs, optional_view, rest_after,
    slice_of, split, starts_with, string_of, texts, trim, trimmed,
};

verus! {

/// Whether a manifest carries the marker of an installable package: the
/// `[corky]` table and, in so many words, `is_corky_package = true`.
pub open spec fn marks_package(content: Seq<char>) -> bool {
    occurs(content, "[corky]"@) && occurs(content, "is_corky_package = true"@)
}

/// The value that `line` assigns in double quotes: what stands after the
/// line's first `=`, without the white space around it and without the
/// quotes that enclose it.
pub open spec fn quoted_value(line: Seq<char>) -> Option<Seq<char>> {
    match after_first(line, '=') {
        None => None,
        Some(rest) => {
            let value = trimmed(rest);
            if value.len() >= 2 && value[0] == '"' && value.last() == '"' {
                Some(value.subrange(1, value.len() - 1))
            } else {
                None
            }
        },
    }
}

/// Whether `line` opens the `[package]` section.
pub open spec fn is_package_header(line: Seq<char>) -> bool {
    "[package]"@.is_prefix_of(trimmed(line))
}

/// Whether `line` opens another section: it stands in square brackets and
/// is no `[package]` header.
pub open spec fn is_other_header(line: Seq<char>) -> bool {
    let l = trimmed(line);
    !is_package_header(line) && l.len() > 0 && l[0] == '[' && l.last() == ']'
}

/// The lines after the first `[package]` header.
pub open spec fn after_package_header(lines: Seq<Seq<char>>) -> Seq<Seq<char>>
    decreases lines.len(),
{
    if lines.len() == 0 {
        Seq::empty()
    } else if is_package_header(lines[0]) {
        lines.drop_first()
    } else {
        after_package_header(lines.drop_first())
    }
}

/// The lines before the first header of another section.
pub open spec fn until_next_header(lines: Seq<Seq<char>>) -> Seq<Seq<char>>
    decreases lines.len(),
{
    if lines.len() == 0 || is_other_header(lines[0]) {
        Seq::empty()
    } else {
        seq![lines[0]] + until_next_header(lines.drop_first())
    }
}

/// The lines of the `[package]` section.
pub open spec fn package_section(lines: Seq<Seq<char>>) -> Seq<Seq<char>> {
    until_next_header(after_package_header(lines))
}

/// The value of the first of `lines` that begins with `key` and assigns a
/// value in double quotes.
pub open spec fn first_value(lines: Seq<Seq<char>>, key: Seq<char>) -> Option<Seq<char>>
    decreases lines.len(),
{
    if lines.len() == 0 {
        None
    } else {
        let l = trimmed(lines[0]);
        if key.is_prefix_of(l) && quoted_value(l) is Some {
            quoted_value(l)
        } else {
            first_value(lines.drop_first(), key)
        }
    }
}

/// The package's name as the manifest gives it, `corky` where it gives
/// none.
pub open spec fn package_name(content: Seq<char>) -> Seq<char> {
    match first_value(package_section(lines_of(content)), "name"@) {
        Some(name) => name,
        None => "corky"@,
    }
}

/// The package's description as the manifest gives it, `corky service`
/// where it gives none.
pub open spec fn package_description(content: Seq<char>) -> Seq<char> {
    match first_value(package_section(lines_of(content)), "description"@) {
        Some(text) => text,
        None => "corky service"@,
    }
}

/// Where an installation takes its binary from and what it writes.
#[derive(Debug, PartialEq, Eq)]
pub struct InstallationTarget {
    /// The package's name.
    pub package: String,
    /// The package's description.
    pub description: String,
    /// The name under which the supervisor knows the service.
    pub service: String,
    /// Where the build leaves the binary.
    pub source_binary: String,
    /// Where the binary is installed.
    pub installed_binary: String,
    /// Where the unit file is written.
    pub unit_path: String,
}

/// What an `InstallationTarget` stands for.
pub struct TargetModel {
    pub package: Seq<char>,
    pub description: Seq<char>,
    pub service: Seq<char>,
    pub source_binary: Seq<char>,
    pub installed_binary: Seq<char>,
    pub unit_path: Seq<char>,
}

impl View for InstallationTarget {
    type V = TargetModel;

    open spec fn view(&self) -> TargetModel {
        TargetModel {
            package: self.package@,
            description: self.description@,
            service: self.service@,
            source_binary: self.source_binary@,
            installed_binary: self.installed_binary@,
            unit_path: self.unit_path@,
        }
    }
}

/// The target of a package with this name and description. The service
/// name is the package's name with the family prefix; the binary keeps the
/// package's name as it is.
pub open spec fn target_for(package: Seq<char>, description: Seq<char>) -> TargetModel {
    let service = with_prefix(package);
    TargetModel {
        package,
        description,
        service,
        source_binary: "target/release/"@ + package,
        installed_binary: "/usr/local/bin/"@ + package,
        unit_path: "/etc/systemd/system/"@ + unit_name(service),
    }
}

/// The target that a manifest describes; that of the fallback name and
/// description where the manifest could not be read.
pub open spec fn target_of(manifest: Option<Seq<char>>) -> TargetModel {
    match manifest {
        Some(content) => target_for(package_name(content), package_description(content)),
        None => target_for("corky"@, "corky service"@),
    }
}

/// The service of every target carries the family prefix, and its unit
/// file is named after the service.
pub proof fn lemma_target_service_prefixed(manifest: Option<Seq<char>>)
    ensures
        has_prefix(target_of(manifest).service),
        target_of(manifest).unit_path == "/etc/systemd/system/"@ + unit_name(
            target_of(manifest).service,
        ),
{
    match manifest {
        Some(content) => {
            lemma_with_prefix_carries(package_name(content));
        },
        None => {
            lemma_with_prefix_carries("corky"@);
        },
    }
}

/// Whether `content` carries the marker of an installable package.
pub fn is_corky_package(content: &str) -> (b: bool)
    ensures
        b == marks_package(content@),
{
    let chars = chars_of(content);
    contains(chars.as_slice(), chars_of("[corky]").as_slice()) && contains(
        chars.as_slice(),
        chars_of("is_corky_package = true").as_slice(),
    )
}

fn value_in(line: &[char]) -> (out: Option<Vec<char>>)
    ensures
        out is Some == quoted_value(line@) is Some,
        out matches Some(v) ==> Some(v@) == quoted_value(line@),
{
    match rest_after(line, '=') {
        None => None,
        Some(rest) => {
            let value = trim(rest.as_slice());
            let n = value.len();
            if n >= 2 && value[0] == '"' && value[n - 1] == '"' {
                Some(slice_of(value.as_slice(), 1, n - 1))
            } else {
                None
            }
        },
    }
}

/// The value that `line` assigns in double quotes, if it assigns one.
pub fn extract_toml_str_value(line: &str) -> (out: Option<String>)
    ensures
        out is Some == quoted_value(line@) is Some,
        out matches Some(v) ==> Some(v@) == quoted_value(line@),
{
    let chars = chars_of(line);
    match value_in(chars.as_slice()) {
        Some(v) => Some(string_of(v.as_slice())),
        None => None,
    }
}

fn opens_package(line: &[char]) -> (b: bool)
    ensures
        b == is_package_header(line@),
{
    let l = trim(line);
    starts_with(l.as_slice(), chars_of("[package]").as_slice())
}

fn opens_other(line: &[char]) -> (b: bool)
    ensures
        b == is_other_header(line@),
{
    let l = trim(line);
    let n = l.len();
    !starts_with(l.as_slice(), chars_of("[package]").as_slice()) && n > 0 && l[0] == '[' && l[n
        - 1] == ']'
}

/// Where the `[package]` section of `lines` begins and ends.
fn section_bounds(lines: &Vec<Vec<char>>) -> (out: (usize, usize))
    ensures
        out.0 <= out.1 <= lines.len(),
        package_section(texts(lines@)) == texts(lines@).subrange(out.0 as int, out.1 as int),
{
    let ghost all = texts(lines@);
    let mut start: usize = 0;
    let mut found = false;
    assert(all.skip(0) == all);
    while start < lines.len() && !found
        invariant
            start <= lines.len(),
            all == texts(lines@),
            !found ==> after_package_header(all) == after_package_header(all.skip(start as int)),
            found ==> after_package_header(all) == all.skip(start as int),
        decreases lines.len() - start + (if found { 0int } else { 1int }),
    {
        assert(all.skip(start as int).drop_first() == all.skip(start + 1));
        assert(all.skip(start as int)[0] == lines@[start as int]@);
        if opens_package(lines[start].as_slice()) {
            found = true;
        }
        start += 1;
    }
    let ghost rest = all.skip(start as int);
    assert(after_package_header(all) == rest);
    let mut end: usize = start;
    assert(rest.take(0) == Seq::<Seq<char>>::empty());
    assert(rest.skip(0) == rest);
    while end < lines.len()
        invariant
            start <= end <= lines.len(),
            all == texts(lines@),
            rest == all.skip(start as int),
            after_package_header(all) == rest,
            until_next_header(rest) == rest.take(end - start) + until_next_header(
                rest.skip(end - start),
            ),
        decreases lines.len() - end,
    {
        let ghost tail = rest.skip(end - start);
        assert(tail[0] == lines@[end as int]@);
        assert(tail.drop_first() == rest.skip(end - start + 1));
        if opens_other(lines[end].as_slice()) {
            assert(until_next_header(tail) == Seq::<Seq<char>>::empty());
            assert(rest.take(end - start) == all.subrange(start as int, end as int));
            assert(until_next_header(rest) == rest.take(end - start));
            return (start, end);
        }
        assert(rest.take(end - start + 1) == rest.take(end - start) + seq![tail[0]]);
        end += 1;
    }
    assert(rest.take(end - start) == all.subrange(start as int, end as int));
    (start, end)
}

/// The value of the first line among `lines[from..to]` that begins with
/// `key` and assigns a value in double quotes.
fn find_value(lines: &Vec<Vec<char>>, from: usize, to: usize, key: &str) -> (out: Option<
    Vec<char>,
>)
    requires
        from <= to <= lines.len(),
    ensures
        out is Some == first_value(texts(lines@).subrange(from as int, to as int), key@) is Some,
        out matches Some(v) ==> Some(v@) == first_value(
            texts(lines@).subrange(from as int, to as int),
            key@,
        ),
{
    let ghost section = texts(lines@).subrange(from as int, to as int);
    let key_chars = chars_of(key);
    let mut i: usize = from;
    assert(section.skip(0) == section);
    while i < to
        invariant
            from <= i <= to,
            to <= lines.len(),
            key_chars@ == key@,
            section == texts(lines@).subrange(from as int, to as int),
            first_value(section, key@) == first_value(section.skip(i - from), key@),
        decreases to - i,
    {
        let ghost tail = section.skip(i - from);
        assert(tail[0] == lines@[i as int]@);
        assert(tail.drop_first() == section.skip(i - from + 1));
        let l = trim(lines[i].as_slice());
        if starts_with(l.as_slice(), key_chars.as_slice()) {
            match value_in(l.as_slice()) {
                Some(v) => {
                    return Some(v);
                },
                None => {},
            }
        }
        i += 1;
    }
    None
}

/// The package's name and description as the manifest `content` gives
/// them; `corky` and `corky service` where it gives none.
pub fn pkg_name_and_description(content: &str) -> (out: (String, String))
    ensures
        out.0@ == package_name(content@),
        out.1@ == package_description(content@),
{
    let chars = chars_of(content);
    let lines = split(chars.as_slice(), '\n');
    let (from, to) = section_bounds(&lines);
    let name = match find_value(&lines, from, to, "name") {
        Some(v) => string_of(v.as_slice()),
        None => string_of(chars_of("corky").as_slice()),
    };
    let description = match find_value(&lines, from, to, "description") {
        Some(v) => string_of(v.as_slice()),
        None => string_of(chars_of("corky service").as_slice()),
    };
    (name, description)
}

/// The target of a package with this name and description.
pub fn target_from(package: &str, description: &str) -> (out: InstallationTarget)
    ensures
        out@ == target_for(package@, description@),
{
    let name = chars_of(package);
    let service = crate::names::prefixed(package);
    let unit = crate::names::unit_of(service.as_str());
    let source = chain(chars_of("target/release/").as_slice(), name.as_slice());
    let installed = chain(chars_of("/usr/local/bin/").as_slice(), name.as_slice());
    let unit_path = chain(
        chars_of("/etc/systemd/system/").as_slice(),
        chars_of(unit.as_str()).as_slice(),
    );
    InstallationTarget {
        package: string_of(name.as_slice()),
        description: string_of(chars_of(description).as_slice()),
        service,
        source_binary: string_of(source.as_slice()),
        installed_binary: string_of(installed.as_slice()),
        unit_path: string_of(unit_path.as_slice()),
    }
}

/// The target that `manifest` describes; that of the fallback name and
/// description where the manifest could not be read.
pub fn installation_target(manifest: Option<&str>) -> (out: InstallationTarget)
    ensures
        out@ == target_of(optional_view(manifest)),
{
    match manifest {
        Some(content) => {
            let (name, description) = pkg_name_and_description(content);
            target_from(name.as_str(), description.as_str())
        },
        None => target_from("corky", "corky service"),
    }
}

} // verus!
