//! The indexer and the assembled database: a single pass over the validated
//! records derives three lookup views keyed by territory id, numbering-plan
//! code, and region grouping.

use vstd::prelude::*;

use crate::error::{BuildError, BuildErrorV};
use crate::raw::{RawMetadata, RawMetadataV};
use crate::record::{validate, validate_spec, Metadata, MetadataV};

verus! {

/// What validating a whole sequence of raw records yields, in order; the
/// first failing record aborts the whole construction, so no partially valid
/// database is ever produced.
pub open spec fn build_spec(s: Seq<RawMetadataV>) -> Result<Seq<MetadataV>, BuildErrorV>
    decreases s.len(),
{
    if s.len() == 0 {
        Ok(Seq::empty())
    } else {
        match validate_spec(s.first()) {
            Err(e) => Err(e),
            Ok(m) => match build_spec(s.drop_first()) {
                Err(e) => Err(e),
                Ok(rest) => Ok(seq![m] + rest),
            },
        }
    }
}

/// The identity index over a validated sequence: one entry per distinct id,
/// a later record with a duplicate id overwriting an earlier one.
pub open spec fn index_by_id(s: Seq<MetadataV>) -> Map<Seq<char>, MetadataV>
    decreases s.len(),
{
    if s.len() == 0 {
        Map::empty()
    } else {
        index_by_id(s.drop_last()).insert(s.last().id, s.last())
    }
}

/// The code index: all records sharing a numbering-plan code, grouped under
/// it in input order.
pub open spec fn index_by_code(s: Seq<MetadataV>) -> Map<u16, Seq<MetadataV>>
    decreases s.len(),
{
    if s.len() == 0 {
        Map::empty()
    } else {
        let m = index_by_code(s.drop_last());
        let code = s.last().country_code;
        let group = if m.contains_key(code) {
            m[code]
        } else {
            Seq::empty()
        };
        m.insert(code, group.push(s.last()))
    }
}

/// The region index: the territory ids sharing a numbering-plan code, in the
/// same order as [`index_by_code`].
pub open spec fn index_regions(s: Seq<MetadataV>) -> Map<u16, Seq<Seq<char>>>
    decreases s.len(),
{
    if s.len() == 0 {
        Map::empty()
    } else {
        let m = index_regions(s.drop_last());
        let code = s.last().country_code;
        let group = if m.contains_key(code) {
            m[code]
        } else {
            Seq::empty()
        };
        m.insert(code, group.push(s.last().id))
    }
}

/// Relies on `str`'s `PartialEq`: string equality compares the text.
#[verifier::external_body]
fn str_eq(a: &str, b: &str) -> (r: bool)
    ensures
        r == (a@ == b@),
{
    a == b
}

/// Records bearing a given numbering-plan code, in input order.
pub open spec fn code_filter(s: Seq<MetadataV>, code: u16) -> Seq<MetadataV> {
    s.filter(|m: MetadataV| m.country_code == code)
}

/// Uniqueness of the identity index: its keys are exactly the ids of the
/// input records, and under each id stands the latest input record bearing
/// it, so a duplicate id deterministically overwrites the earlier entry.
pub proof fn lemma_index_by_id(s: Seq<MetadataV>)
    ensures
        forall|id: Seq<char>|
            index_by_id(s).contains_key(id) <==> exists|j: int|
                0 <= j < s.len() && (#[trigger] s[j]).id == id,
        forall|j: int|
            0 <= j < s.len() && (forall|k: int| j < k < s.len() ==> (#[trigger] s[k]).id != s[j].id)
                ==> index_by_id(s)[(#[trigger] s[j]).id] == s[j],
    decreases s.len(),
{
    if s.len() > 0 {
        let pre = s.drop_last();
        lemma_index_by_id(pre);
        assert forall|id: Seq<char>| index_by_id(s).contains_key(id) implies exists|j: int|
            0 <= j < s.len() && (#[trigger] s[j]).id == id by {
            if id == s.last().id {
                assert(s[s.len() - 1].id == id);
            } else {
                assert(index_by_id(pre).contains_key(id));
                assert(exists|j: int| 0 <= j < pre.len() && (#[trigger] pre[j]).id == id);
                let j = choose|j: int| 0 <= j < pre.len() && (#[trigger] pre[j]).id == id;
                assert(pre[j] == s[j]);
                assert(s[j].id == id);
            }
        }
        assert forall|id: Seq<char>|
            (exists|j: int| 0 <= j < s.len() && (#[trigger] s[j]).id == id) implies index_by_id(
            s,
        ).contains_key(id) by {
            let j = choose|j: int| 0 <= j < s.len() && (#[trigger] s[j]).id == id;
            if j < s.len() - 1 {
                assert(pre[j].id == id);
            }
        }
        assert forall|j: int|
            0 <= j < s.len() && (forall|k: int|
                j < k < s.len() ==> (#[trigger] s[k]).id != s[j].id) implies index_by_id(s)[(
        #[trigger] s[j]).id] == s[j] by {
            if j == s.len() - 1 {
                assert(index_by_id(s)[s[j].id] == s.last());
            } else {
                assert(pre[j] == s[j]);
                assert(forall|k: int| j < k < pre.len() ==> (#[trigger] pre[k]).id != pre[j].id);
                assert(index_by_id(pre)[s[j].id] == s[j]);
                assert(s[s.len() - 1].id != s[j].id);
            }
        }
    }
}

/// Order preservation of the code index: the group under a code is exactly
/// the subsequence of input records bearing that code, in input order (and
/// the code is a key exactly when some record bears it).
pub proof fn lemma_index_by_code(s: Seq<MetadataV>, code: u16)
    ensures
        index_by_code(s).contains_key(code) <==> exists|j: int|
            0 <= j < s.len() && (#[trigger] s[j]).country_code == code,
        (if index_by_code(s).contains_key(code) {
            index_by_code(s)[code]
        } else {
            Seq::empty()
        }) == code_filter(s, code),
    decreases s.len(),
{
    reveal(Seq::filter);
    if s.len() == 0 {
    } else {
        let pre = s.drop_last();
        lemma_index_by_code(pre, code);
        assert(code_filter(s, code) == (if s.last().country_code == code {
            code_filter(pre, code).push(s.last())
        } else {
            code_filter(pre, code)
        }));
        if s.last().country_code == code {
            assert(s[s.len() - 1].country_code == code);
        } else {
            assert(index_by_code(s).contains_key(code) == index_by_code(pre).contains_key(code));
            assert forall|j: int|
                0 <= j < s.len() && (#[trigger] s[j]).country_code == code implies exists|k: int|
                0 <= k < pre.len() && (#[trigger] pre[k]).country_code == code by {
                assert(pre[j].country_code == code);
            }
        }
    }
}

/// The region index mirrors the code index: the same keys, and under each
/// key the ids of the grouped records, pointwise in the same order.
pub proof fn lemma_regions_mirror(s: Seq<MetadataV>, code: u16)
    ensures
        index_regions(s).contains_key(code) <==> index_by_code(s).contains_key(code),
        (if index_regions(s).contains_key(code) {
            index_regions(s)[code]
        } else {
            Seq::empty()
        }) == (if index_by_code(s).contains_key(code) {
            index_by_code(s)[code]
        } else {
            Seq::empty()
        }).map_values(|m: MetadataV| m.id),
    decreases s.len(),
{
    if s.len() == 0 {
        assert(Seq::<MetadataV>::empty().map_values(|m: MetadataV| m.id)
            =~= Seq::<Seq<char>>::empty());
    } else {
        let pre = s.drop_last();
        lemma_regions_mirror(pre, code);
        if s.last().country_code == code {
            let prev_codes = if index_by_code(pre).contains_key(code) {
                index_by_code(pre)[code]
            } else {
                Seq::empty()
            };
            assert(prev_codes.push(s.last()).map_values(|m: MetadataV| m.id)
                =~= prev_codes.map_values(|m: MetadataV| m.id).push(s.last().id));
        }
    }
}

/// Index consistency: every input record is present in the group under its
/// own numbering-plan code, and the region list under that code holds its id
/// at the same position.
pub proof fn lemma_index_consistency(s: Seq<MetadataV>, j: int)
    requires
        0 <= j < s.len(),
    ensures
        index_by_code(s).contains_key(s[j].country_code),
        index_regions(s).contains_key(s[j].country_code),
        exists|k: int|
            0 <= k < index_by_code(s)[s[j].country_code].len()
                && (#[trigger] index_by_code(s)[s[j].country_code][k]) == s[j]
                && index_regions(s)[s[j].country_code][k] == s[j].id,
{
    let code = s[j].country_code;
    lemma_index_by_code(s, code);
    lemma_regions_mirror(s, code);
    let pred = |m: MetadataV| m.country_code == code;
    s.lemma_filter_contains(pred, j);
    let grp = index_by_code(s)[code];
    assert(grp == code_filter(s, code));
    let k = choose|k: int| 0 <= k < grp.len() && grp[k] == s[j];
    assert(index_regions(s)[code][k] == grp.map_values(|m: MetadataV| m.id)[k]);
    assert(grp[k] == s[j]);
}

/// A sequence of raw records that all validate is accepted whole, in order.
proof fn lemma_build_of_prefix(s: Seq<RawMetadataV>, t: Seq<MetadataV>)
    requires
        s.len() == t.len(),
        forall|j: int|
            0 <= j < s.len() ==> #[trigger] validate_spec(s[j]) is Ok && t[j] == validate_spec(
                s[j],
            )->Ok_0,
    ensures
        build_spec(s) == Ok::<Seq<MetadataV>, BuildErrorV>(t),
    decreases s.len(),
{
    if s.len() == 0 {
        assert(t =~= Seq::<MetadataV>::empty());
    } else {
        assert(validate_spec(s[0]) is Ok);
        lemma_build_of_prefix(s.drop_first(), t.drop_first());
        assert(seq![t[0]] + t.drop_first() =~= t);
    }
}

/// The first raw record that fails to validate decides the outcome.
proof fn lemma_build_first_err(s: Seq<RawMetadataV>, i: int)
    requires
        0 <= i < s.len(),
        forall|j: int| 0 <= j < i ==> #[trigger] validate_spec(s[j]) is Ok,
        validate_spec(s[i]) is Err,
    ensures
        build_spec(s) == Err::<Seq<MetadataV>, BuildErrorV>(validate_spec(s[i])->Err_0),
    decreases i,
{
    if i > 0 {
        assert(validate_spec(s[0]) is Ok);
        lemma_build_first_err(s.drop_first(), i - 1);
    }
}

/// The immutable assembled database of all validated territory records.
///
/// It owns one record per input record; the three indices are the
/// specification-level maps [`Database::id_map`], [`Database::code_map`] and
/// [`Database::region_map`] derived from that one owned sequence, so every
/// record reachable through any view is the same single instance.
#[derive(Debug, Clone)]
pub struct Database {
    records: Vec<Metadata>,
}

impl Database {
    /// The validated records the database owns, in input order.
    pub closed spec fn records_view(self) -> Seq<MetadataV> {
        self.records.deep_view()
    }

    /// The identity index: exactly one entry per distinct territory id.
    pub open spec fn id_map(self) -> Map<Seq<char>, MetadataV> {
        index_by_id(self.records_view())
    }

    /// The code index: the records of each numbering-plan code, in order.
    pub open spec fn code_map(self) -> Map<u16, Seq<MetadataV>> {
        index_by_code(self.records_view())
    }

    /// The region index: the territory ids of each code, in the same order.
    pub open spec fn region_map(self) -> Map<u16, Seq<Seq<char>>> {
        index_regions(self.records_view())
    }

    /// Create a database from a loaded sequence of raw records: validate
    /// each in order, fail-fast on the first bad record, and index the rest.
    ///
    /// A later record with a duplicate id overwrites the earlier entry of
    /// the identity index, while the code and region groupings keep both.
    #[verifier::loop_isolation(false)]
    pub fn from(meta: Vec<RawMetadata>) -> (r: Result<Database, BuildError>)
        ensures
            r matches Ok(db) ==> build_spec(meta.deep_view()) == Ok::<
                Seq<MetadataV>,
                BuildErrorV,
            >(db.records_view()),
            r matches Err(e) ==> build_spec(meta.deep_view()) == Err::<
                Seq<MetadataV>,
                BuildErrorV,
            >(e@),
    {
        let ghost views = meta.deep_view();
        let mut rest = meta;
        let mut records: Vec<Metadata> = Vec::new();
        proof {
            assert(rest.deep_view() =~= views.skip(0));
        }
        while rest.len() > 0
            invariant
                records.deep_view().len() <= views.len(),
                rest.deep_view() == views.skip(records.deep_view().len() as int),
                forall|j: int|
                    0 <= j < records.deep_view().len() ==> #[trigger] validate_spec(
                        views[j],
                    ) is Ok && records.deep_view()[j] == validate_spec(views[j])->Ok_0,
            decreases rest.len(),
        {
            let ghost i: int = records.deep_view().len() as int;
            let ghost prev = rest.deep_view();
            let ghost prev_raw = rest@;
            let raw = rest.remove(0);
            proof {
                assert(raw@ == prev[0]);
                assert(prev[0] == views[i]);
                assert forall|k: int| 0 <= k < rest@.len() implies rest.deep_view()[k]
                    == views.skip(i + 1)[k] by {
                    assert(rest@[k] == prev_raw[k + 1]);
                    assert(rest.deep_view()[k] == prev_raw[k + 1].deep_view());
                    assert(prev[k + 1] == prev_raw[k + 1].deep_view());
                    assert(prev[k + 1] == views.skip(i)[k + 1]);
                }
                assert(rest.deep_view() =~= views.skip(i + 1));
            }
            match validate(raw) {
                Ok(m) => {
                    records.push(m);
                },
                Err(e) => {
                    proof {
                        lemma_build_first_err(views, i);
                    }
                    return Err(e);
                },
            }
        }
        proof {
            assert(views.skip(records.deep_view().len() as int).len() == 0);
            lemma_build_of_prefix(views, records.deep_view());
        }
        Ok(Database { records })
    }

    /// The validated records, in input order.
    pub fn records(&self) -> (r: &Vec<Metadata>)
        ensures
            r.deep_view() == self.records_view(),
    {
        &self.records
    }

    /// Get a metadata entry by territory id: the entry of the identity
    /// index, or absent when no record bears the id.
    #[verifier::loop_isolation(false)]
    pub fn by_id(&self, key: &str) -> (r: Option<&Metadata>)
        ensures
            match r {
                Some(m) => self.id_map().contains_key(key@) && m@ == self.id_map()[key@],
                None => !self.id_map().contains_key(key@),
            },
    {
        let ghost s = self.records_view();
        proof {
            lemma_index_by_id(s);
        }
        let mut i: usize = self.records.len();
        while i > 0
            invariant
                i <= self.records.len(),
                forall|j: int| i <= j < s.len() ==> (#[trigger] s[j]).id != key@,
            decreases i,
        {
            i = i - 1;
            proof {
                assert(s[i as int] == self.records@[i as int].deep_view());
            }
            if str_eq(self.records[i].id.as_str(), key) {
                return Some(&self.records[i]);
            }
        }
        None
    }

    /// Get all metadata entries sharing a numbering-plan code, in insertion
    /// order, or absent when the code is unknown.
    #[verifier::loop_isolation(false)]
    pub fn by_code(&self, code: u16) -> (r: Option<Vec<&Metadata>>)
        ensures
            match r {
                Some(v) => self.code_map().contains_key(code) && v.deep_view()
                    == self.code_map()[code],
                None => !self.code_map().contains_key(code),
            },
    {
        let ghost s = self.records_view();
        let ghost pred = |m: MetadataV| m.country_code == code;
        let mut out: Vec<&Metadata> = Vec::new();
        let mut i: usize = 0;
        proof {
            reveal(Seq::filter);
            assert(s.take(0) =~= Seq::<MetadataV>::empty());
            assert(out.deep_view() =~= Seq::<MetadataV>::empty().filter(pred));
        }
        while i < self.records.len()
            invariant
                i <= self.records.len(),
                out.deep_view() == s.take(i as int).filter(pred),
                out.deep_view().len() > 0 ==> exists|j: int|
                    0 <= j < i && (#[trigger] s[j]).country_code == code,
            decreases self.records.len() - i,
        {
            let ghost taken = s.take(i as int);
            proof {
                assert(s[i as int] == self.records@[i as int].deep_view());
                assert(s.take(i + 1).drop_last() =~= taken);
                assert(s.take(i + 1).last() == s[i as int]);
                reveal(Seq::filter);
            }
            if self.records[i].country_code == code {
                out.push(&self.records[i]);
                proof {
                    assert(out.deep_view() =~= taken.filter(pred).push(s[i as int]));
                }
            }
            i = i + 1;
        }
        proof {
            assert(s.take(s.len() as int) =~= s);
            lemma_index_by_code(s, code);
        }
        if out.len() > 0 {
            Some(out)
        } else {
            proof {
                if self.code_map().contains_key(code) {
                    let j = choose|j: int|
                        0 <= j < s.len() && (#[trigger] s[j]).country_code == code;
                    s.lemma_filter_contains(pred, j);
                    let k = choose|k: int|
                        0 <= k < code_filter(s, code).len() && code_filter(s, code)[k] == s[j];
                }
            }
            None
        }
    }

    /// Get all territory ids sharing a numbering-plan code, in the same
    /// order as [`Database::by_code`], or absent when the code is unknown.
    #[verifier::loop_isolation(false)]
    pub fn region(&self, code: u16) -> (r: Option<Vec<&str>>)
        ensures
            match r {
                Some(v) => self.region_map().contains_key(code) && v.deep_view()
                    == self.region_map()[code],
                None => !self.region_map().contains_key(code),
            },
    {
        let ghost s = self.records_view();
        let ghost pred = |m: MetadataV| m.country_code == code;
        let ghost to_id = |m: MetadataV| m.id;
        let mut out: Vec<&str> = Vec::new();
        let mut i: usize = 0;
        proof {
            reveal(Seq::filter);
            assert(s.take(0) =~= Seq::<MetadataV>::empty());
            assert(out.deep_view() =~= Seq::<MetadataV>::empty().filter(pred).map_values(to_id));
        }
        while i < self.records.len()
            invariant
                i <= self.records.len(),
                out.deep_view() == s.take(i as int).filter(pred).map_values(to_id),
                out.deep_view().len() > 0 ==> exists|j: int|
                    0 <= j < i && (#[trigger] s[j]).country_code == code,
            decreases self.records.len() - i,
        {
            let ghost taken = s.take(i as int);
            proof {
                assert(s[i as int] == self.records@[i as int].deep_view());
                assert(s.take(i + 1).drop_last() =~= taken);
                assert(s.take(i + 1).last() == s[i as int]);
                reveal(Seq::filter);
            }
            if self.records[i].country_code == code {
                out.push(self.records[i].id.as_str());
                proof {
                    assert(taken.filter(pred).push(s[i as int]).map_values(to_id)
                        =~= taken.filter(pred).map_values(to_id).push(s[i as int].id));
                    assert(out.deep_view() =~= taken.filter(pred).map_values(to_id).push(
                        s[i as int].id,
                    ));
                }
            }
            i = i + 1;
        }
        proof {
            assert(s.take(s.len() as int) =~= s);
            lemma_index_by_code(s, code);
            lemma_regions_mirror(s, code);
        }
        if out.len() > 0 {
            Some(out)
        } else {
            proof {
                if self.region_map().contains_key(code) {
                    let j = choose|j: int|
                        0 <= j < s.len() && (#[trigger] s[j]).country_code == code;
                    s.lemma_filter_contains(pred, j);
                    let k = choose|k: int|
                        0 <= k < code_filter(s, code).len() && code_filter(s, code)[k] == s[j];
                }
            }
            None
        }
    }

    /// Re-derive the raw records this database was built from, in the order
    /// the records are owned: rebuilding from them yields a database with
    /// the very same record sequence, and so the same three indices.
    #[verifier::loop_isolation(false)]
    pub fn to_raw(&self) -> (r: Vec<RawMetadata>)
        ensures
            build_spec(r.deep_view()) == Ok::<Seq<MetadataV>, BuildErrorV>(self.records_view()),
    {
        let ghost s = self.records_view();
        let mut out: Vec<RawMetadata> = Vec::new();
        let mut i: usize = 0;
        while i < self.records.len()
            invariant
                i <= self.records.len(),
                out.deep_view().len() == i as int,
                forall|j: int|
                    0 <= j < i ==> #[trigger] validate_spec(out.deep_view()[j]) is Ok
                        && validate_spec(out.deep_view()[j])->Ok_0 == s[j],
            decreases self.records.len() - i,
        {
            let raw = self.records[i].to_raw();
            proof {
                assert(s[i as int] == self.records@[i as int]@);
            }
            let ghost prev_deep = out.deep_view();
            let ghost prev_raw = out@;
            out.push(raw);
            proof {
                assert forall|j: int| 0 <= j < i + 1 implies #[trigger] validate_spec(
                    out.deep_view()[j],
                ) is Ok && validate_spec(out.deep_view()[j])->Ok_0 == s[j] by {
                    if j < i {
                        assert(out@[j] == prev_raw[j]);
                        assert(out.deep_view()[j] == prev_raw[j].deep_view());
                        assert(prev_deep[j] == prev_raw[j].deep_view());
                    } else {
                        assert(out@[j] == raw);
                    }
                }
            }
            i = i + 1;
        }
        proof {
            lemma_build_of_prefix(out.deep_view(), s);
        }
        out
    }
}

/// Round-trip stability: two databases owning the same validated records —
/// as a rebuild from [`Database::to_raw`] yields — answer every query alike,
/// since all three indices are derived from that one record sequence.
pub proof fn lemma_round_trip(a: Database, b: Database)
    requires
        a.records_view() == b.records_view(),
    ensures
        a.id_map() == b.id_map(),
        a.code_map() == b.code_map(),
        a.region_map() == b.region_map(),
{
}

} // verus!
