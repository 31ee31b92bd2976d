use vstd::multiset::Multiset;
use vstd::prelude::*;
use vstd::seq_lib::lemma_multiset_commutative;
use vstd::string::{StrSliceExecFns, StringExecFns};

use crate::manifest::{clone_value_option, ManifestEntry};
use crate::manifest_list::ManifestFile;
use crate::table::Table;
use crate::value::{values_equal, Value};

verus! {

/// A table wired into a host query engine: scan planning turns its
/// manifests and files into the engine's scan units.
pub struct DataFusionTable(pub Table);

impl DataFusionTable {
    /// Wraps a loaded table.
    pub fn from_table(table: Table) -> (r: Self)
        ensures
            r.0 == table,
    {
        DataFusionTable(table)
    }

    /// The table below the wrapper.
    pub fn table(&self) -> (r: &Table)
        ensures
            *r == self.0,
    {
        &self.0
    }
}

impl DataFusionTable {
    /// The statistics of a scan of this table: the verified aggregation
    /// over its manifests, with one unknown column statistic per schema
    /// field.
    pub fn statistics(&self) -> (r: TableStatistics)
        ensures
            r.num_rows matches Some(v) ==> spec_total_rows(self.0.spec_manifests()) == Some(
                v as int,
            ),
            r.num_rows is None <==> spec_total_rows(self.0.spec_manifests()) is None,
            r.is_exact == (r.num_rows is Some),
            r.total_byte_size is None,
            r.column_count == self.0.spec_metadata().schema.struct_fields.fields@.len(),
    {
        let column_count = self.0.metadata().schema.struct_fields.fields.len();
        table_statistics(self.0.manifests(), column_count)
    }

    /// Plans a scan of this table over the files that survived pruning,
    /// with the full contract of [`build_scan_plan`].
    pub fn scan_plan(&self, files: Vec<ScanFile>) -> (plan: ScanPlan)
        ensures
            spec_scan_plan_built(plan, self.0, files@),
    {
        build_scan_plan(&self.0, files)
    }
}

impl From<Table> for DataFusionTable {
    /// Wraps a loaded table.
    fn from(value: Table) -> (r: Self) {
        DataFusionTable(value)
    }
}

impl vstd::std_specs::convert::FromSpecImpl<Table> for DataFusionTable {
    open spec fn obeys_from_spec() -> bool {
        true
    }

    open spec fn from_spec(t: Table) -> Self {
        DataFusionTable(t)
    }
}

/// A location with every path separator replaced by a dash.
pub open spec fn spec_sanitized(s: Seq<char>) -> Seq<char> {
    s.map_values(|c: char| if c == '/' { '-' } else { c })
}

/// The URL the table's object store is registered under with the host
/// engine: the sanitized location behind a fixed scheme.
pub open spec fn spec_object_store_url(location: Seq<char>) -> Seq<char> {
    "tableformat://"@ + spec_sanitized(location)
}

/// Builds the URL the table's object store is registered under: the
/// location with every path separator turned into a dash, behind a fixed
/// scheme, so that file paths under the location resolve back to the same
/// store.
pub fn object_store_url_string(location: &str) -> (r: String)
    ensures
        r@ == spec_object_store_url(location@),
{
    let mut out = String::from_str("tableformat://");
    let n = location.unicode_len();
    let mut i: usize = 0;
    while i < n
        invariant
            n == location@.len(),
            0 <= i <= n,
            out@ == "tableformat://"@ + spec_sanitized(location@.take(i as int)),
        decreases n - i,
    {
        let c = location.get_char(i);
        if c == '/' {
            out.append("-");
        } else {
            let piece = location.substring_char(i, i + 1);
            out.append(piece);
        }
        proof {
            reveal_strlit("/");
            reveal_strlit("-");
            assert(spec_sanitized(location@.take(i + 1)) =~= spec_sanitized(
                location@.take(i as int),
            ) + seq![if location@[i as int] == '/' {
                '-'
            } else {
                location@[i as int]
            }]);
            assert(out@ =~= "tableformat://"@ + spec_sanitized(location@.take(i + 1)));
        }
        i += 1;
    }
    assert(location@.take(n as int) =~= location@);
    out
}

/// Splits a millisecond timestamp into whole seconds and the nanoseconds of
/// the remaining fraction, as engines state file modification times.
pub fn timestamp_parts(ms: i64) -> (r: (i64, u32))
    requires
        ms >= 0,
    ensures
        r.0 == ms as int / 1000,
        r.1 == (ms as int % 1000) * 1_000_000,
{
    let u = ms as u64;
    let secs = (u / 1000) as i64;
    let nanos = ((u % 1000) as u32) * 1_000_000;
    (secs, nanos)
}

/// One file of a scan plan: where it lives, how large it is, when the
/// table last changed, and its partition tuple.
#[derive(Debug, PartialEq)]
pub struct ScanFile {
    /// Full location of the file.
    pub location: String,
    /// Size of the file in bytes.
    pub size: i64,
    /// When the table metadata was last written, in milliseconds since the
    /// epoch.
    pub last_modified_ms: i64,
    /// The partition tuple of the file, in spec order.
    pub partition_values: Vec<Option<Value>>,
}

/// Structural equality of two partition tuples.
pub fn partition_tuples_equal(a: &Vec<Option<Value>>, b: &Vec<Option<Value>>) -> (r: bool)
    ensures
        r == (a.deep_view() == b.deep_view()),
{
    if a.len() != b.len() {
        assert(a.deep_view().len() != b.deep_view().len());
        return false;
    }
    let n = a.len();
    let mut i: usize = 0;
    while i < n
        invariant
            n == a@.len() == b@.len(),
            0 <= i <= n,
            forall|j: int| 0 <= j < i ==> a.deep_view()[j] == b.deep_view()[j],
        decreases n - i,
    {
        let same = match (&a[i], &b[i]) {
            (Option::None, Option::None) => true,
            (Option::Some(x), Option::Some(y)) => values_equal(x, y),
            _ => false,
        };
        if !same {
            assert(a.deep_view()[i as int] != b.deep_view()[i as int]);
            return false;
        }
        i += 1;
    }
    assert(a.deep_view() =~= b.deep_view());
    true
}

/// The files of a sequence of groups, in group order.
pub open spec fn spec_flatten_groups(gs: Seq<Seq<ScanFile>>) -> Seq<ScanFile>
    decreases gs.len(),
{
    if gs.len() == 0 {
        Seq::<ScanFile>::empty()
    } else {
        spec_flatten_groups(gs.drop_last()) + gs.last()
    }
}

/// The contents of each group.
pub open spec fn spec_group_views(gs: Seq<Vec<ScanFile>>) -> Seq<Seq<ScanFile>> {
    Seq::new(gs.len(), |i: int| gs[i]@)
}

/// Appending a group appends its files.
proof fn lemma_flatten_push(gs: Seq<Seq<ScanFile>>, g: Seq<ScanFile>)
    ensures
        spec_flatten_groups(gs.push(g)) == spec_flatten_groups(gs) + g,
{
    assert(gs.push(g).drop_last() =~= gs);
    assert(gs.push(g).last() == g);
}

/// Pushing a file into one group adds exactly that file to the files of
/// the groups.
proof fn lemma_flatten_update_push(gs: Seq<Seq<ScanFile>>, k: int, x: ScanFile)
    requires
        0 <= k < gs.len(),
    ensures
        spec_flatten_groups(gs.update(k, gs[k].push(x))).to_multiset() == spec_flatten_groups(
            gs,
        ).to_multiset().insert(x),
    decreases gs.len(),
{
    broadcast use vstd::seq_lib::group_to_multiset_ensures;

    let gs2 = gs.update(k, gs[k].push(x));
    if k == gs.len() - 1 {
        assert(gs2.drop_last() =~= gs.drop_last());
        assert(gs2.last() == gs.last().push(x));
        lemma_multiset_commutative(spec_flatten_groups(gs.drop_last()), gs.last().push(x));
        lemma_multiset_commutative(spec_flatten_groups(gs.drop_last()), gs.last());
        assert(gs.last().push(x).to_multiset() =~= gs.last().to_multiset().insert(x));
        assert(spec_flatten_groups(gs2).to_multiset() =~= spec_flatten_groups(
            gs,
        ).to_multiset().insert(x));
    } else {
        assert(gs2.drop_last() =~= gs.drop_last().update(k, gs.drop_last()[k].push(x)));
        assert(gs2.last() == gs.last());
        lemma_flatten_update_push(gs.drop_last(), k, x);
        lemma_multiset_commutative(spec_flatten_groups(gs2.drop_last()), gs2.last());
        lemma_multiset_commutative(spec_flatten_groups(gs.drop_last()), gs.last());
        assert(spec_flatten_groups(gs2).to_multiset() =~= spec_flatten_groups(
            gs,
        ).to_multiset().insert(x));
    }
}

/// The group whose files share the given file's partition tuple, if one
/// exists.
fn find_group(groups: &Vec<Vec<ScanFile>>, x: &ScanFile) -> (r: Option<usize>)
    requires
        forall|h: int| 0 <= h < groups@.len() ==> (#[trigger] groups@[h]@).len() > 0,
    ensures
        r matches Some(g) ==> 0 <= (g as int) < groups@.len()
            && groups@[g as int]@[0].partition_values.deep_view()
            == x.partition_values.deep_view(),
        r is None ==> forall|h: int|
            0 <= h < groups@.len() ==> (#[trigger] groups@[h]@[0]).partition_values.deep_view()
                != x.partition_values.deep_view(),
{
    let m = groups.len();
    let mut g: usize = 0;
    while g < m
        invariant
            m == groups@.len(),
            0 <= g <= m,
            forall|h: int| 0 <= h < groups@.len() ==> (#[trigger] groups@[h]@).len() > 0,
            forall|h: int|
                0 <= h < g ==> (#[trigger] groups@[h]@[0]).partition_values.deep_view()
                    != x.partition_values.deep_view(),
        decreases m - g,
    {
        if partition_tuples_equal(&groups[g][0].partition_values, &x.partition_values) {
            return Some(g);
        }
        g += 1;
    }
    None
}

/// Groups the surviving files of a scan by their partition tuple: files
/// with equal tuples land in one group, each group is one unit of physical
/// parallelism. Groups stand in first-occurrence order, files keep their
/// order within a group, and no file is lost or invented.
pub fn group_files(files: Vec<ScanFile>) -> (r: Vec<Vec<ScanFile>>)
    ensures
        forall|g: int| 0 <= g < r@.len() ==> (#[trigger] r@[g]@).len() > 0,
        forall|g: int, a: int, b: int|
            0 <= g < r@.len() && 0 <= a < r@[g]@.len() && 0 <= b < r@[g]@.len()
                ==> (#[trigger] r@[g]@[a]).partition_values.deep_view()
                == (#[trigger] r@[g]@[b]).partition_values.deep_view(),
        forall|g1: int, g2: int|
            0 <= g1 < g2 < r@.len() ==> (#[trigger] r@[g1]@[0]).partition_values.deep_view()
                != (#[trigger] r@[g2]@[0]).partition_values.deep_view(),
        spec_flatten_groups(spec_group_views(r@)).to_multiset() == files@.to_multiset(),
{
    broadcast use vstd::seq_lib::group_to_multiset_ensures;

    let ghost all = files@;
    let mut source = files;
    let mut groups: Vec<Vec<ScanFile>> = Vec::new();
    let n = source.len();
    let mut i: usize = 0;
    proof {
        assert(all.skip(0) =~= all);
        assert(spec_group_views(groups@).len() == 0);
        assert(spec_flatten_groups(spec_group_views(groups@)).to_multiset() =~= all.take(
            0,
        ).to_multiset());
    }
    while i < n
        invariant
            n == all.len(),
            0 <= i <= n,
            source@ =~= all.skip(i as int),
            forall|g: int| 0 <= g < groups@.len() ==> (#[trigger] groups@[g]@).len() > 0,
            forall|g: int, a: int, b: int|
                0 <= g < groups@.len() && 0 <= a < groups@[g]@.len() && 0 <= b
                    < groups@[g]@.len() ==> (#[trigger] groups@[g]@[a]).partition_values.deep_view()
                    == (#[trigger] groups@[g]@[b]).partition_values.deep_view(),
            forall|g1: int, g2: int|
                0 <= g1 < g2 < groups@.len() ==> (#[trigger] groups@[g1]@[0]).partition_values.deep_view()
                    != (#[trigger] groups@[g2]@[0]).partition_values.deep_view(),
            spec_flatten_groups(spec_group_views(groups@)).to_multiset() == all.take(
                i as int,
            ).to_multiset(),
        decreases n - i,
    {
        assert(all.skip(i as int)[0] == all[i as int]);
        let x = source.remove(0);
        assert(x == all[i as int]);
        assert(all.skip(i as int).remove(0) =~= all.skip(i + 1));
        assert(all.take(i + 1) =~= all.take(i as int).push(x));
        proof {
            vstd::seq_lib::to_multiset_build(all.take(i as int), x);
        }
        let ghost views_pre = spec_group_views(groups@);
        match find_group(&groups, &x) {
            Some(g) => {
                let ghost old_group = groups@[g as int]@;
                let mut grp = groups.remove(g);
                grp.push(x);
                groups.insert(g, grp);
                proof {
                    assert(groups@[g as int]@ == old_group.push(x));
                    assert(spec_group_views(groups@) =~= views_pre.update(
                        g as int,
                        views_pre[g as int].push(x),
                    ));
                    lemma_flatten_update_push(views_pre, g as int, x);
                }
            },
            None => {
                let mut fresh: Vec<ScanFile> = Vec::new();
                fresh.push(x);
                let ghost fresh_view = fresh@;
                groups.push(fresh);
                proof {
                    assert(spec_group_views(groups@) =~= views_pre.push(fresh_view));
                    lemma_flatten_push(views_pre, fresh_view);
                    assert(spec_flatten_groups(views_pre) + fresh_view =~= spec_flatten_groups(
                        views_pre,
                    ).push(x));
                    vstd::seq_lib::to_multiset_build(spec_flatten_groups(views_pre), x);
                    assert(spec_flatten_groups(spec_group_views(groups@)).to_multiset()
                        =~= spec_flatten_groups(views_pre).to_multiset().insert(x));
                }
            },
        }
        i += 1;
    }
    assert(all.take(n as int) =~= all);
    groups
}

/// The rows a manifest contributes to the scan estimate: its added and
/// existing rows less its deleted rows, or unknown when a count is absent.
pub open spec fn spec_manifest_rows(m: ManifestFile) -> Option<int> {
    match (m.added_rows_count, m.existing_rows_count, m.deleted_rows_count) {
        (Some(a), Some(e), Some(d)) => Some(a + e - d),
        _ => None,
    }
}

/// The total row estimate over the surviving manifests: the sum of each
/// manifest's contribution, or unknown as soon as a contribution is
/// unknown or a partial sum leaves the machine range.
pub open spec fn spec_total_rows(manifests: Seq<ManifestFile>) -> Option<int>
    decreases manifests.len(),
{
    if manifests.len() == 0 {
        Some(0)
    } else {
        match (spec_total_rows(manifests.drop_last()), spec_manifest_rows(manifests.last())) {
            (Some(acc), Some(add)) => if i64::MIN <= acc + add <= i64::MAX {
                Some(acc + add)
            } else {
                None
            },
            _ => None,
        }
    }
}

/// The table statistics handed to the host engine's planner.
#[derive(Debug, Clone, PartialEq)]
pub struct TableStatistics {
    /// The number of rows, when every surviving manifest carries its
    /// counts.
    pub num_rows: Option<i64>,
    /// The total size in bytes; not aggregated here.
    pub total_byte_size: Option<i64>,
    /// How many columns the scan schema has; each column's statistics are
    /// left unknown.
    pub column_count: usize,
    /// Whether the row number is exact.
    pub is_exact: bool,
}

/// Aggregates the scan statistics over the surviving manifests: the rows of
/// each manifest are its added and existing rows less its deleted rows, an
/// absent count makes the total unknown and the estimate inexact.
pub fn table_statistics(manifests: &Vec<ManifestFile>, column_count: usize) -> (r:
    TableStatistics)
    ensures
        r.num_rows matches Some(v) ==> spec_total_rows(manifests@) == Some(v as int),
        r.num_rows is None <==> spec_total_rows(manifests@) is None,
        r.is_exact == (r.num_rows is Some),
        r.total_byte_size is None,
        r.column_count == column_count,
{
    let n = manifests.len();
    let mut acc: i64 = 0;
    let mut known = true;
    let mut i: usize = 0;
    assert(manifests@.take(0).len() == 0);
    while i < n
        invariant
            n == manifests@.len(),
            0 <= i <= n,
            known ==> spec_total_rows(manifests@.take(i as int)) == Some(acc as int),
            !known ==> spec_total_rows(manifests@.take(i as int)) is None,
        decreases n - i,
    {
        assert(manifests@.take(i + 1).last() == manifests@[i as int]);
        assert(manifests@.take(i + 1).drop_last() =~= manifests@.take(i as int));
        if known {
            let m = &manifests[i];
            match (m.added_rows_count, m.existing_rows_count, m.deleted_rows_count) {
                (Some(a), Some(e), Some(d)) => {
                    let sum: i128 = (acc as i128) + (a as i128) + (e as i128) - (d as i128);
                    if sum >= -0x8000_0000_0000_0000i128 && sum <= 0x7fff_ffff_ffff_ffffi128 {
                        acc = sum as i64;
                    } else {
                        known = false;
                    }
                },
                _ => {
                    known = false;
                },
            }
        }
        i += 1;
    }
    assert(manifests@.take(n as int) =~= manifests@);
    TableStatistics {
        num_rows: if known {
            Some(acc)
        } else {
            None
        },
        total_byte_size: None,
        column_count,
        is_exact: known,
    }
}

/// The names of the partition columns of the scan, one per field of the
/// default partition spec, in spec order.
pub fn partition_column_names(fields: &Vec<crate::partition::PartitionField>) -> (r: Vec<String>)
    ensures
        r@.len() == fields@.len(),
        forall|i: int| 0 <= i < r@.len() ==> (#[trigger] r@[i])@ == fields@[i].name@,
{
    let n = fields.len();
    let mut out: Vec<String> = Vec::new();
    let mut i: usize = 0;
    while i < n
        invariant
            n == fields@.len(),
            0 <= i <= n,
            out@.len() == i,
            forall|j: int| 0 <= j < i ==> (#[trigger] out@[j])@ == fields@[j].name@,
        decreases n - i,
    {
        let ghost out_pre = out@;
        out.push(fields[i].name.clone());
        assert forall|j: int| 0 <= j < i + 1 implies (#[trigger] out@[j])@ == fields@[j].name@ by {
            if j < i {
                assert(out@[j] == out_pre[j]);
            }
        }
        i += 1;
    }
    out
}


/// The output of scan planning, handed to the host query engine: the
/// partition columns, the files to read grouped by partition tuple, and
/// the statistics of the scan.
#[derive(Debug)]
pub struct ScanPlan {
    /// The URL the table's object store is registered under.
    pub object_store_url: String,
    /// The names of the partition columns, in spec order.
    pub partition_columns: Vec<String>,
    /// The files to read, grouped by partition tuple; each group is one
    /// unit of physical parallelism.
    pub file_groups: Vec<Vec<ScanFile>>,
    /// The statistics of the scan.
    pub statistics: TableStatistics,
}

/// What scan planning guarantees: the store URL is the sanitized location
/// behind the fixed scheme, the partition columns are the default spec's
/// field names in order, the groups are nonempty with equal partition
/// tuples inside, no file is lost or invented, and the statistics
/// aggregate the table's manifests.
pub open spec fn spec_scan_plan_built(plan: ScanPlan, table: Table, files: Seq<ScanFile>) -> bool {
    &&& plan.object_store_url@ == spec_object_store_url(table.spec_metadata().location@)
    &&& plan.partition_columns@.len() == table.spec_metadata().default_spec.fields@.len()
    &&& (forall|i: int|
        0 <= i < plan.partition_columns@.len() ==> (#[trigger] plan.partition_columns@[i])@
            == table.spec_metadata().default_spec.fields@[i].name@)
    &&& (forall|g: int|
        0 <= g < plan.file_groups@.len() ==> (#[trigger] plan.file_groups@[g]@).len() > 0)
    &&& (forall|g: int, a: int, b: int|
        0 <= g < plan.file_groups@.len() && 0 <= a < plan.file_groups@[g]@.len() && 0 <= b
            < plan.file_groups@[g]@.len()
            ==> (#[trigger] plan.file_groups@[g]@[a]).partition_values.deep_view()
            == (#[trigger] plan.file_groups@[g]@[b]).partition_values.deep_view())
    &&& (forall|g1: int, g2: int|
        0 <= g1 < g2 < plan.file_groups@.len()
            ==> (#[trigger] plan.file_groups@[g1]@[0]).partition_values.deep_view()
            != (#[trigger] plan.file_groups@[g2]@[0]).partition_values.deep_view())
    &&& spec_flatten_groups(spec_group_views(plan.file_groups@)).to_multiset()
        == files.to_multiset()
    &&& (plan.statistics.num_rows matches Some(v) ==> spec_total_rows(table.spec_manifests())
        == Some(v as int))
    &&& (plan.statistics.num_rows is None <==> spec_total_rows(table.spec_manifests()) is None)
    &&& plan.statistics.is_exact == (plan.statistics.num_rows is Some)
    &&& plan.statistics.total_byte_size is None
    &&& plan.statistics.column_count == table.spec_metadata().schema.struct_fields.fields@.len()
}

/// Plans a scan over the files that survived pruning: the files are
/// grouped by partition tuple, the partition columns come from the default
/// spec, and the statistics aggregate the table's manifests.
pub fn build_scan_plan(table: &Table, files: Vec<ScanFile>) -> (plan: ScanPlan)
    ensures
        spec_scan_plan_built(plan, *table, files@),
{
    let metadata = table.metadata();
    let object_store_url = object_store_url_string(metadata.location.as_str());
    let partition_columns = partition_column_names(&metadata.default_spec.fields);
    let file_groups = group_files(files);
    let statistics = table_statistics(
        table.manifests(),
        metadata.schema.struct_fields.fields.len(),
    );
    ScanPlan { object_store_url, partition_columns, file_groups, statistics }
}

/// Builds the scan file of one manifest entry: the data file's location,
/// size and partition tuple, stamped with the table's last update time.
pub fn scan_file_from_entry(entry: &ManifestEntry, last_updated_ms: i64) -> (r: ScanFile)
    ensures
        r.location@ == entry.data_file.file_path@,
        r.size == entry.data_file.file_size_in_bytes,
        r.last_modified_ms == last_updated_ms,
        r.partition_values@.len() == entry.data_file.partition.spec_pairs().len(),
        forall|i: int|
            0 <= i < r.partition_values@.len() ==> #[trigger] r.partition_values@[i].deep_view()
                == entry.data_file.partition.spec_pairs()[i].1,
{
    let values = entry.data_file.partition.iter();
    let mut partition_values: Vec<Option<Value>> = Vec::new();
    let n = values.len();
    let mut i: usize = 0;
    while i < n
        invariant
            n == values@.len(),
            values@.len() == entry.data_file.partition.spec_pairs().len(),
            forall|j: int|
                0 <= j < values@.len() ==> #[trigger] values@[j].deep_view()
                    == entry.data_file.partition.spec_pairs()[j].1,
            0 <= i <= n,
            partition_values@.len() == i,
            forall|j: int|
                0 <= j < i ==> #[trigger] partition_values@[j].deep_view()
                    == entry.data_file.partition.spec_pairs()[j].1,
        decreases n - i,
    {
        let ghost pre = partition_values@;
        partition_values.push(clone_value_option(&values[i]));
        assert forall|j: int|
            0 <= j < i + 1 implies #[trigger] partition_values@[j].deep_view()
            == entry.data_file.partition.spec_pairs()[j].1 by {
            if j < i {
                assert(partition_values@[j] == pre[j]);
            }
        }
        i += 1;
    }
    ScanFile {
        location: entry.data_file.file_path.clone(),
        size: entry.data_file.file_size_in_bytes,
        last_modified_ms: last_updated_ms,
        partition_values,
    }
}

} // verus!
