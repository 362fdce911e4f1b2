//! From the version that the user names to the version of the dependency.
//!
//! A fixed table maps each supported release to the coordinate under which
//! the dependency is published. A version that the table does not hold is
//! taken to be a coordinate already and passes through unchanged.

use crate::text::same_text;
use vstd::prelude::*;

verus! {

/// One line of the table: a release, and the coordinate of its dependency.
#[derive(Clone, Copy, Debug)]
pub struct VersionAlias {
    pub release: &'static str,
    pub coordinate: &'static str,
}

/// The table, as pairs of release and coordinate.
pub open spec fn version_table() -> Seq<(Seq<char>, Seq<char>)> {
    seq![
        ("1.8.8"@, "1.8.8-R0.1-SNAPSHOT"@),
        ("1.9.4"@, "1.9.4-R0.1-SNAPSHOT"@),
        ("1.10.2"@, "1.10.2-R0.1-SNAPSHOT"@),
        ("1.11.2"@, "1.11.2-R0.1-SNAPSHOT"@),
        ("1.12.2"@, "1.12.2-R0.1-SNAPSHOT"@),
        ("1.13.2"@, "1.13.2-R0.1-SNAPSHOT"@),
        ("1.14.4"@, "1.14.4-R0.1-SNAPSHOT"@),
        ("1.15.2"@, "1.15.2-R0.1-SNAPSHOT"@),
        ("1.16.5"@, "1.16.5-R0.1-SNAPSHOT"@),
        ("1.17.1"@, "1.17.1-R0.1-SNAPSHOT"@),
        ("1.18.2"@, "1.18.2-R0.1-SNAPSHOT"@),
        ("1.19.4"@, "1.19.4-R0.1-SNAPSHOT"@),
        ("1.20.6"@, "1.20.6-R0.1-SNAPSHOT"@),
        ("1.21"@, "1.21-R0.1-SNAPSHOT"@),
    ]
}

/// The pairs that a list of table lines stands for.
pub open spec fn alias_pairs(aliases: Seq<VersionAlias>) -> Seq<(Seq<char>, Seq<char>)> {
    aliases.map_values(|alias: VersionAlias| (alias.release@, alias.coordinate@))
}

/// The coordinate of the first line of `table` whose release is exactly
/// `release`, if there is such a line.
pub open spec fn coordinate_of(table: Seq<(Seq<char>, Seq<char>)>, release: Seq<char>) -> Option<
    Seq<char>,
>
    decreases table.len(),
{
    if table.len() == 0 {
        None
    } else if table[0].0 == release {
        Some(table[0].1)
    } else {
        coordinate_of(table.skip(1), release)
    }
}

/// The dependency version for the version `input`.
pub open spec fn resolved_version(input: Seq<char>) -> Seq<char> {
    match coordinate_of(version_table(), input) {
        Some(coordinate) => coordinate,
        None => input,
    }
}

/// The marker that ends every coordinate of the table.
pub open spec fn snapshot_marker() -> Seq<char> {
    "-R0.1-SNAPSHOT"@
}

/// A version that the table does not hold resolves to itself.
pub proof fn lemma_unknown_version_is_kept(input: Seq<char>)
    requires
        coordinate_of(version_table(), input) is None,
    ensures
        resolved_version(input) == input,
{
}

/// A version that the table holds resolves to a coordinate of the table.
pub proof fn lemma_known_version_is_looked_up(input: Seq<char>)
    requires
        coordinate_of(version_table(), input) is Some,
    ensures
        exists|i: int|
            0 <= i < version_table().len() && (#[trigger] version_table()[i]).0 == input
                && resolved_version(input) == version_table()[i].1,
{
    lemma_found_in(version_table(), input);
}

proof fn lemma_found_in(table: Seq<(Seq<char>, Seq<char>)>, release: Seq<char>)
    requires
        coordinate_of(table, release) is Some,
    ensures
        exists|i: int|
            0 <= i < table.len() && (#[trigger] table[i]).0 == release && coordinate_of(
                table,
                release,
            ) == Some(table[i].1),
    decreases table.len(),
{
    if table[0].0 == release {
        assert(table[0].0 == release);
    } else {
        lemma_found_in(table.skip(1), release);
        let i = choose|i: int|
            0 <= i < table.skip(1).len() && (#[trigger] table.skip(1)[i]).0 == release
                && coordinate_of(table.skip(1), release) == Some(table.skip(1)[i].1);
        assert(table[i + 1] == table.skip(1)[i]);
    }
}

/// Every line of the table maps its release to the release followed by the
/// snapshot marker.
pub proof fn lemma_table_appends_marker(i: int)
    requires
        0 <= i < version_table().len(),
    ensures
        version_table()[i].1 == version_table()[i].0 + snapshot_marker(),
{
    reveal_strlit("-R0.1-SNAPSHOT");
    reveal_strlit("1.8.8");
    reveal_strlit("1.8.8-R0.1-SNAPSHOT");
    reveal_strlit("1.9.4");
    reveal_strlit("1.9.4-R0.1-SNAPSHOT");
    reveal_strlit("1.10.2");
    reveal_strlit("1.10.2-R0.1-SNAPSHOT");
    reveal_strlit("1.11.2");
    reveal_strlit("1.11.2-R0.1-SNAPSHOT");
    reveal_strlit("1.12.2");
    reveal_strlit("1.12.2-R0.1-SNAPSHOT");
    reveal_strlit("1.13.2");
    reveal_strlit("1.13.2-R0.1-SNAPSHOT");
    reveal_strlit("1.14.4");
    reveal_strlit("1.14.4-R0.1-SNAPSHOT");
    reveal_strlit("1.15.2");
    reveal_strlit("1.15.2-R0.1-SNAPSHOT");
    reveal_strlit("1.16.5");
    reveal_strlit("1.16.5-R0.1-SNAPSHOT");
    reveal_strlit("1.17.1");
    reveal_strlit("1.17.1-R0.1-SNAPSHOT");
    reveal_strlit("1.18.2");
    reveal_strlit("1.18.2-R0.1-SNAPSHOT");
    reveal_strlit("1.19.4");
    reveal_strlit("1.19.4-R0.1-SNAPSHOT");
    reveal_strlit("1.20.6");
    reveal_strlit("1.20.6-R0.1-SNAPSHOT");
    reveal_strlit("1.21");
    reveal_strlit("1.21-R0.1-SNAPSHOT");
    assert(version_table()[i].1 =~= version_table()[i].0 + snapshot_marker());
}

/// The table.
pub fn version_aliases() -> (aliases: Vec<VersionAlias>)
    ensures
        alias_pairs(aliases@) == version_table(),
{
    let mut aliases: Vec<VersionAlias> = Vec::new();
    aliases.push(VersionAlias { release: "1.8.8", coordinate: "1.8.8-R0.1-SNAPSHOT" });
    aliases.push(VersionAlias { release: "1.9.4", coordinate: "1.9.4-R0.1-SNAPSHOT" });
    aliases.push(VersionAlias { release: "1.10.2", coordinate: "1.10.2-R0.1-SNAPSHOT" });
    aliases.push(VersionAlias { release: "1.11.2", coordinate: "1.11.2-R0.1-SNAPSHOT" });
    aliases.push(VersionAlias { release: "1.12.2", coordinate: "1.12.2-R0.1-SNAPSHOT" });
    aliases.push(VersionAlias { release: "1.13.2", coordinate: "1.13.2-R0.1-SNAPSHOT" });
    aliases.push(VersionAlias { release: "1.14.4", coordinate: "1.14.4-R0.1-SNAPSHOT" });
    aliases.push(VersionAlias { release: "1.15.2", coordinate: "1.15.2-R0.1-SNAPSHOT" });
    aliases.push(VersionAlias { release: "1.16.5", coordinate: "1.16.5-R0.1-SNAPSHOT" });
    aliases.push(VersionAlias { release: "1.17.1", coordinate: "1.17.1-R0.1-SNAPSHOT" });
    aliases.push(VersionAlias { release: "1.18.2", coordinate: "1.18.2-R0.1-SNAPSHOT" });
    aliases.push(VersionAlias { release: "1.19.4", coordinate: "1.19.4-R0.1-SNAPSHOT" });
    aliases.push(VersionAlias { release: "1.20.6", coordinate: "1.20.6-R0.1-SNAPSHOT" });
    aliases.push(VersionAlias { release: "1.21", coordinate: "1.21-R0.1-SNAPSHOT" });
    assert(alias_pairs(aliases@) =~= version_table());
    aliases
}

/// Looks `release` up in `aliases`.
pub fn find_coordinate(aliases: &Vec<VersionAlias>, release: &str) -> (coordinate: Option<
    &'static str,
>)
    ensures
        coordinate is Some <==> coordinate_of(alias_pairs(aliases@), release@) is Some,
        coordinate is Some ==> coordinate->0@ == coordinate_of(
            alias_pairs(aliases@),
            release@,
        )->0,
{
    let mut i: usize = 0;
    assert(alias_pairs(aliases@).skip(0) =~= alias_pairs(aliases@));
    while i < aliases.len()
        invariant
            i <= aliases.len(),
            coordinate_of(alias_pairs(aliases@).skip(i as int), release@) == coordinate_of(
                alias_pairs(aliases@),
                release@,
            ),
        decreases aliases.len() - i,
    {
        let ghost rest = alias_pairs(aliases@).skip(i as int);
        assert(rest[0] == (aliases@[i as int].release@, aliases@[i as int].coordinate@));
        if same_text(aliases[i].release, release) {
            return Some(aliases[i].coordinate);
        }
        assert(rest.skip(1) =~= alias_pairs(aliases@).skip(i + 1));
        i += 1;
    }
    None
}

/// Resolves the version that the user named: the coordinate that the table
/// holds for exactly this release, or else the input itself.
pub fn resolve_version(input: &str) -> (version: String)
    ensures
        version@ == resolved_version(input@),
{
    let aliases = version_aliases();
    match find_coordinate(&aliases, input) {
        Some(coordinate) => coordinate.to_owned(),
        None => input.to_owned(),
    }
}

} // verus!
