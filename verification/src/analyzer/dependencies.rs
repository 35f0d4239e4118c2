//! Dependencies declared in a project's manifest files.

use vstd::prelude::*;
use crate::analyzer::types::{dependency_views, Dependency, DependencyAnalysis, DependencyView};
use crate::text::{
    chars_of, decimal, decimal_of, lines_of, push_all, push_str, same_chars, split_lines,
    string_of, subvec, trim, trim_bounds, vec_views,
};

verus! {

/// The text of a dependency report for `direct` direct and `dev` development
/// dependencies: an empty line, the title, and the two counts.
pub open spec fn dependency_report(direct: nat, dev: nat) -> Seq<char> {
    "\n의존성\n직접: "@ + decimal(direct) + " | 개발: "@ + decimal(dev) + "\n"@
}

/// The report on the dependencies of a project, ready to be printed.
pub fn print_dependency_report(deps: &DependencyAnalysis) -> (report: String)
    ensures
        report@ == dependency_report(
            deps.direct_dependencies@.len(),
            deps.dev_dependencies@.len(),
        ),
{
    let mut out: Vec<char> = Vec::new();
    push_str(&mut out, "\n의존성\n직접: ");
    let direct = decimal_of(deps.direct_dependencies.len() as u64);
    push_all(&mut out, &direct);
    push_str(&mut out, " | 개발: ");
    let dev = decimal_of(deps.dev_dependencies.len() as u64);
    push_all(&mut out, &dev);
    push_str(&mut out, "\n");
    proof {
        assert(out@ =~= dependency_report(
            deps.direct_dependencies@.len(),
            deps.dev_dependencies@.len(),
        ));
    }
    string_of(&out)
}

/// The section of a manifest that a line belongs to.
#[derive(Debug, Clone, Copy, PartialEq, Eq, Structural)]
pub enum Section {
    /// Neither of the two below.
    Other,
    /// `[dependencies]`.
    Dependencies,
    /// `[dev-dependencies]`.
    DevDependencies,
}

/// `s` without the double quotes at its start.
pub open spec fn unquote_start(s: Seq<char>) -> Seq<char>
    decreases s.len(),
{
    if s.len() > 0 && s[0] == '"' {
        unquote_start(s.skip(1))
    } else {
        s
    }
}

/// `s` without the double quotes at its end.
pub open spec fn unquote_end(s: Seq<char>) -> Seq<char>
    decreases s.len(),
{
    if s.len() > 0 && s.last() == '"' {
        unquote_end(s.drop_last())
    } else {
        s
    }
}

/// `s` without the double quotes at both ends.
pub open spec fn unquote(s: Seq<char>) -> Seq<char> {
    unquote_end(unquote_start(s))
}

/// The position of the first equals sign of `s`, or `s.len()` when it has
/// none.
pub open spec fn equals_at(s: Seq<char>) -> int
    decreases s.len(),
{
    if s.len() == 0 {
        0
    } else if s[0] == '=' {
        0
    } else {
        1 + equals_at(s.skip(1))
    }
}

/// What a manifest holds, as far as it has been read.
pub struct ManifestState {
    pub section: Section,
    pub direct: Seq<DependencyView>,
    pub dev: Seq<DependencyView>,
}

/// The state after one more line. A line that names a section switches to
/// it; in one of the two dependency sections, a line with an equals sign
/// declares a dependency: its name is what stands before the first equals
/// sign, its version what stands after, both trimmed, the version without
/// quotes around it.
pub open spec fn after_line(state: ManifestState, line: Seq<char>) -> ManifestState {
    let t = trim(line);
    if t == "[dependencies]"@ {
        ManifestState { section: Section::Dependencies, ..state }
    } else if t == "[dev-dependencies]"@ {
        ManifestState { section: Section::DevDependencies, ..state }
    } else if t.len() > 0 && t[0] == '[' {
        ManifestState { section: Section::Other, ..state }
    } else if state.section != Section::Other && 0 <= equals_at(t) < t.len() {
        let dep = DependencyView {
            name: trim(t.take(equals_at(t))),
            version: unquote(trim(t.skip(equals_at(t) + 1))),
        };
        if state.section == Section::Dependencies {
            ManifestState { direct: state.direct.push(dep), ..state }
        } else {
            ManifestState { dev: state.dev.push(dep), ..state }
        }
    } else {
        state
    }
}

/// The state after the first `n` of `lines`, read from `state`.
pub open spec fn after_lines(state: ManifestState, lines: Seq<Seq<char>>, n: int) -> ManifestState
    decreases n,
{
    if n <= 0 {
        state
    } else {
        after_line(after_lines(state, lines, n - 1), lines[n - 1])
    }
}

/// What a Cargo manifest adds to the dependencies found so far.
pub open spec fn after_cargo_toml(
    content: Seq<char>,
    direct: Seq<DependencyView>,
    dev: Seq<DependencyView>,
) -> ManifestState {
    after_lines(
        ManifestState { section: Section::Other, direct, dev },
        lines_of(content),
        lines_of(content).len() as int,
    )
}

fn unquote_bounds(v: &Vec<char>, lo: usize, hi: usize) -> (r: (usize, usize))
    requires
        lo <= hi <= v.len(),
    ensures
        lo <= r.0 <= r.1 <= hi,
        v@.subrange(r.0 as int, r.1 as int) == unquote(v@.subrange(lo as int, hi as int)),
{
    let mut a: usize = lo;
    while a < hi && v[a] == '"'
        invariant
            lo <= a <= hi <= v.len(),
            unquote_start(v@.subrange(lo as int, hi as int)) == unquote_start(
                v@.subrange(a as int, hi as int),
            ),
        decreases hi - a,
    {
        proof {
            let s = v@.subrange(a as int, hi as int);
            assert(s.skip(1) =~= v@.subrange(a + 1, hi as int));
        }
        a += 1;
    }
    let mut b: usize = hi;
    while a < b && v[b - 1] == '"'
        invariant
            a <= b <= hi <= v.len(),
            unquote_end(v@.subrange(a as int, hi as int)) == unquote_end(
                v@.subrange(a as int, b as int),
            ),
        decreases b - a,
    {
        proof {
            let s = v@.subrange(a as int, b as int);
            assert(s.drop_last() =~= v@.subrange(a as int, b - 1));
        }
        b -= 1;
    }
    proof {
        let s = v@.subrange(a as int, hi as int);
        if a < hi {
            assert(s[0] == v@[a as int]);
        }
        assert(unquote_start(s) == s);
        let t = v@.subrange(a as int, b as int);
        if a < b {
            assert(t.last() == v@[b - 1]);
        }
        assert(unquote_end(t) == t);
    }
    (a, b)
}

fn find_equals(v: &Vec<char>) -> (i: usize)
    ensures
        i == equals_at(v@),
        i <= v.len(),
{
    let mut i: usize = 0;
    proof {
        assert(v@.skip(0) =~= v@);
    }
    while i < v.len() && v[i] != '='
        invariant
            i <= v.len(),
            i + equals_at(v@.skip(i as int)) == equals_at(v@),
        decreases v.len() - i,
    {
        proof {
            assert(v@.skip(i as int).skip(1) =~= v@.skip(i + 1));
        }
        i += 1;
    }
    i
}

/// Reads a Cargo manifest and adds the dependencies it declares to `deps`
/// and `dev_deps`.
pub fn parse_cargo_toml(content: &str, deps: &mut Vec<Dependency>, dev_deps: &mut Vec<Dependency>)
    ensures
        dependency_views(final(deps)@) == after_cargo_toml(
            content@,
            dependency_views(old(deps)@),
            dependency_views(old(dev_deps)@),
        ).direct,
        dependency_views(final(dev_deps)@) == after_cargo_toml(
            content@,
            dependency_views(old(deps)@),
            dependency_views(old(dev_deps)@),
        ).dev,
{
    let chars = chars_of(content);
    let lines = split_lines(&chars);
    let deps_header = chars_of("[dependencies]");
    let dev_header = chars_of("[dev-dependencies]");
    let mut section = Section::Other;
    let ghost start = ManifestState {
        section: Section::Other,
        direct: dependency_views(deps@),
        dev: dependency_views(dev_deps@),
    };
    let mut i: usize = 0;
    while i < lines.len()
        invariant
            i <= lines.len(),
            vec_views(lines@) == lines_of(content@),
            deps_header@ == "[dependencies]"@,
            dev_header@ == "[dev-dependencies]"@,
            after_lines(start, lines_of(content@), i as int) == (ManifestState {
                section,
                direct: dependency_views(deps@),
                dev: dependency_views(dev_deps@),
            }),
        decreases lines.len() - i,
    {
        let line = &lines[i];
        proof {
            assert(vec_views(lines@)[i as int] == line@);
            assert(line@.subrange(0, line@.len() as int) =~= line@);
        }
        let (a, b) = trim_bounds(line, 0, line.len());
        let t = subvec(line, a, b);
        if same_chars(&t, &deps_header) {
            section = Section::Dependencies;
        } else if same_chars(&t, &dev_header) {
            section = Section::DevDependencies;
        } else if t.len() > 0 && t[0] == '[' {
            section = Section::Other;
        } else if section != Section::Other {
            let eq = find_equals(&t);
            if eq < t.len() {
                let (na, nb) = trim_bounds(&t, 0, eq);
                let (va, vb) = trim_bounds(&t, eq + 1, t.len());
                let (qa, qb) = unquote_bounds(&t, va, vb);
                let dep = Dependency {
                    name: string_of(&subvec(&t, na, nb)),
                    version: string_of(&subvec(&t, qa, qb)),
                };
                proof {
                    assert(t@.subrange(0, eq as int) =~= t@.take(eq as int));
                    assert(t@.subrange(eq + 1, t@.len() as int) =~= t@.skip(eq + 1));
                }
                if section == Section::Dependencies {
                    let ghost before = dependency_views(deps@);
                    deps.push(dep);
                    proof {
                        assert(dependency_views(deps@) =~= before.push(dep@));
                    }
                } else {
                    let ghost before = dependency_views(dev_deps@);
                    dev_deps.push(dep);
                    proof {
                        assert(dependency_views(dev_deps@) =~= before.push(dep@));
                    }
                }
            }
        }
        i += 1;
    }
}

/// What stands under a key of a JSON document.
#[derive(Debug, Clone, PartialEq, Eq)]
pub enum JsonLookup {
    /// The text is not JSON.
    Invalid,
    /// The document has no such key, or what stands under it is no object.
    Missing,
    /// The members of the object under the key, in the order in which
    /// `serde_json` keeps them: each with its name and, if it is a string,
    /// its value.
    Object(Vec<(String, Option<String>)>),
}

/// A lookup as plain text.
pub enum JsonLookupView {
    Invalid,
    Missing,
    Object(Seq<(Seq<char>, Option<Seq<char>>)>),
}

/// The members of `members` as plain text.
pub open spec fn member_views(members: Seq<(String, Option<String>)>) -> Seq<
    (Seq<char>, Option<Seq<char>>),
> {
    members.map_values(
        |m: (String, Option<String>)|
            (
                m.0@,
                match m.1 {
                    Some(s) => Some(s@),
                    None => None,
                },
            ),
    )
}

impl View for JsonLookup {
    type V = JsonLookupView;

    open spec fn view(&self) -> JsonLookupView {
        match self {
            JsonLookup::Invalid => JsonLookupView::Invalid,
            JsonLookup::Missing => JsonLookupView::Missing,
            JsonLookup::Object(members) => JsonLookupView::Object(member_views(members@)),
        }
    }
}

/// What `serde_json` finds under `key` in the document `content`.
pub uninterp spec fn json_object_at(content: Seq<char>, key: Seq<char>) -> JsonLookupView;

/// Parses `content` with `serde_json::from_str` into a `Value` and looks up
/// `key` with `Value::get` and `Value::as_object`; the members are listed
/// with their names and, through `Value::as_str`, their string values.
#[verifier::external_body]
fn lookup_json_object(content: &str, key: &str) -> (found: JsonLookup)
    ensures
        found@ == json_object_at(content@, key@),
{
    let value: serde_json::Value = match serde_json::from_str(content) {
        Ok(v) => v,
        Err(_) => return JsonLookup::Invalid,
    };
    match value.get(key).and_then(|v| v.as_object()) {
        Some(object) => JsonLookup::Object(
            object.iter().map(|(k, v)| (k.clone(), v.as_str().map(String::from))).collect(),
        ),
        None => JsonLookup::Missing,
    }
}

/// The dependencies that the members of an object declare: each member is
/// one, its version the string under it, empty where there is no string.
pub open spec fn declared_by(members: Seq<(Seq<char>, Option<Seq<char>>)>) -> Seq<DependencyView> {
    members.map_values(
        |m: (Seq<char>, Option<Seq<char>>)|
            DependencyView {
                name: m.0,
                version: match m.1 {
                    Some(v) => v,
                    None => Seq::<char>::empty(),
                },
            },
    )
}

/// What a lookup adds to a list of dependencies.
pub open spec fn with_lookup(deps: Seq<DependencyView>, found: JsonLookupView) -> Seq<
    DependencyView,
> {
    match found {
        JsonLookupView::Object(members) => deps + declared_by(members),
        _ => deps,
    }
}

/// Adds the dependencies that the members of a JSON object declare.
pub fn add_declared(deps: &mut Vec<Dependency>, found: &JsonLookup)
    ensures
        dependency_views(final(deps)@) == with_lookup(dependency_views(old(deps)@), found@),
{
    match found {
        JsonLookup::Object(members) => {
            let ghost before = dependency_views(deps@);
            let ghost all = declared_by(member_views(members@));
            let mut i: usize = 0;
            proof {
                assert(before + all.take(0) =~= before);
            }
            while i < members.len()
                invariant
                    i <= members.len(),
                    all == declared_by(member_views(members@)),
                    dependency_views(deps@) == before + all.take(i as int),
                decreases members.len() - i,
            {
                let version = match &members[i].1 {
                    Some(v) => v.clone(),
                    None => String::new(),
                };
                let dep = Dependency { name: members[i].0.clone(), version };
                let ghost earlier = dependency_views(deps@);
                deps.push(dep);
                proof {
                    assert(dependency_views(deps@) =~= earlier.push(dep@));
                    assert(dep@.name == all[i as int].name);
                    assert(dep@.version =~= all[i as int].version);
                    assert(all.take(i + 1) =~= all.take(i as int).push(all[i as int]));
                    assert(dependency_views(deps@) =~= before + all.take(i + 1));
                }
                i += 1;
            }
            proof {
                assert(all.take(members.len() as int) =~= all);
            }
        },
        _ => {},
    }
}

/// Why dependencies could not be read.
#[derive(Debug, Clone, Copy, PartialEq, Eq, Structural)]
pub enum DependencyError {
    /// `package.json` is not JSON.
    InvalidPackageJson,
}

/// Reads a `package.json` and adds the dependencies it declares under
/// `dependencies` to `deps` and those under `devDependencies` to `dev_deps`.
/// A text that is not JSON is refused and nothing is added.
pub fn parse_package_json(content: &str, deps: &mut Vec<Dependency>, dev_deps: &mut Vec<
    Dependency,
>) -> (result: Result<(), DependencyError>)
    ensures
        json_object_at(content@, "dependencies"@) is Invalid ==> result is Err && *final(deps)
            == *old(deps) && *final(dev_deps) == *old(dev_deps),
        !(json_object_at(content@, "dependencies"@) is Invalid) ==> result is Ok
            && dependency_views(final(deps)@) == with_lookup(
            dependency_views(old(deps)@),
            json_object_at(content@, "dependencies"@),
        ) && dependency_views(final(dev_deps)@) == with_lookup(
            dependency_views(old(dev_deps)@),
            json_object_at(content@, "devDependencies"@),
        ),
{
    let direct = lookup_json_object(content, "dependencies");
    match direct {
        JsonLookup::Invalid => {
            return Err(DependencyError::InvalidPackageJson);
        },
        _ => {},
    }
    let dev = lookup_json_object(content, "devDependencies");
    add_declared(deps, &direct);
    add_declared(dev_deps, &dev);
    Ok(())
}

/// The dependencies that the manifests of a project declare, as far as the
/// manifests exist: those of `Cargo.toml`, then those of `package.json`.
pub open spec fn declared_in(cargo_toml: Option<&str>, package_json: Option<&str>) -> ManifestState {
    let empty = Seq::<DependencyView>::empty();
    let cargo = match cargo_toml {
        Some(content) => after_cargo_toml(content@, empty, empty),
        None => ManifestState { section: Section::Other, direct: empty, dev: empty },
    };
    match package_json {
        Some(content) => ManifestState {
            direct: with_lookup(cargo.direct, json_object_at(content@, "dependencies"@)),
            dev: with_lookup(cargo.dev, json_object_at(content@, "devDependencies"@)),
            ..cargo
        },
        None => cargo,
    }
}

/// Reads the manifests of a project: `Cargo.toml` first, then
/// `package.json`, whichever of them there is. A `package.json` that is not
/// JSON is an error.
pub fn analyze_dependencies(cargo_toml: Option<&str>, package_json: Option<&str>) -> (result:
    Result<DependencyAnalysis, DependencyError>)
    ensures
        match result {
            Ok(found) => !(package_json matches Some(content) && json_object_at(
                content@,
                "dependencies"@,
            ) is Invalid) && dependency_views(found.direct_dependencies@) == declared_in(
                cargo_toml,
                package_json,
            ).direct && dependency_views(found.dev_dependencies@) == declared_in(
                cargo_toml,
                package_json,
            ).dev,
            Err(_) => package_json matches Some(content) && json_object_at(
                content@,
                "dependencies"@,
            ) is Invalid,
        },
{
    let mut direct_dependencies: Vec<Dependency> = Vec::new();
    let mut dev_dependencies: Vec<Dependency> = Vec::new();
    proof {
        assert(dependency_views(direct_dependencies@) =~= Seq::<DependencyView>::empty());
        assert(dependency_views(dev_dependencies@) =~= Seq::<DependencyView>::empty());
    }
    match cargo_toml {
        Some(content) => {
            parse_cargo_toml(content, &mut direct_dependencies, &mut dev_dependencies);
        },
        None => {},
    }
    match package_json {
        Some(content) => {
            match parse_package_json(content, &mut direct_dependencies, &mut dev_dependencies) {
                Ok(()) => {},
                Err(e) => {
                    return Err(e);
                },
            }
        },
        None => {},
    }
    Ok(DependencyAnalysis { direct_dependencies, dev_dependencies })
}

} // verus!
