use vstd::prelude::*;

use crate::VolumeError;
use crate::schema::VolumeSchema;

verus! {

/// One daemon-reported volume record, as handed to the projector: every
/// field may be absent, and the projector decides which absences are
/// schema violations.
#[derive(Debug)]
pub struct VolumeRecord {
    pub name: Option<String>,
    pub driver: Option<String>,
    pub mountpoint: Option<String>,
    pub created_at: Option<String>,
}

/// One row of the canonical table: the three required text cells and the
/// nullable created_at cell.
pub type RowView = (Seq<char>, Seq<char>, Seq<char>, Option<Seq<char>>);

pub open spec fn opt_text_view(o: Option<String>) -> Option<Seq<char>> {
    match o {
        Some(s) => Some(s@),
        None => None,
    }
}

/// The record supplies a value for every non-nullable column.
pub open spec fn required_present(v: VolumeRecord) -> bool {
    &&& v.name is Some
    &&& v.driver is Some
    &&& v.mountpoint is Some
}

pub open spec fn all_required_present(vs: Seq<VolumeRecord>) -> bool {
    forall|i: int| 0 <= i < vs.len() ==> required_present(#[trigger] vs[i])
}

/// The row a record projects to, position for position.
pub open spec fn row_of(v: VolumeRecord) -> RowView
    recommends
        required_present(v),
{
    (v.name->0@, v.driver->0@, v.mountpoint->0@, opt_text_view(v.created_at))
}

pub open spec fn rows_of_records(vs: Seq<VolumeRecord>) -> Seq<RowView> {
    vs.map_values(|v: VolumeRecord| row_of(v))
}

/// The widest offset a text column array can address: the column arrays
/// index their bytes with 32-bit offsets, so each column's total UTF-8
/// byte length must stay within this machine limit.
pub const TEXT_COLUMN_BYTE_MAX: u64 = 2147483647;

pub open spec fn utf8_len(s: Seq<char>) -> int {
    vstd::utf8::encode_utf8(s).len() as int
}

pub open spec fn opt_utf8_len(o: Option<Seq<char>>) -> int {
    match o {
        Some(s) => utf8_len(s),
        None => 0,
    }
}

/// The total UTF-8 byte length of each column of a row sequence, as the
/// tuple (name, driver, mountpoint, created_at); a null entry adds nothing.
pub open spec fn row_bytes(rows: Seq<RowView>) -> (int, int, int, int)
    decreases rows.len(),
{
    if rows.len() == 0 {
        (0, 0, 0, 0)
    } else {
        let p = row_bytes(rows.drop_last());
        let r = rows.last();
        (p.0 + utf8_len(r.0), p.1 + utf8_len(r.1), p.2 + utf8_len(r.2), p.3 + opt_utf8_len(r.3))
    }
}

/// Every column's total byte length stays within the 32-bit offset limit.
pub open spec fn rows_fit(rows: Seq<RowView>) -> bool {
    let b = row_bytes(rows);
    &&& b.0 <= TEXT_COLUMN_BYTE_MAX as int
    &&& b.1 <= TEXT_COLUMN_BYTE_MAX as int
    &&& b.2 <= TEXT_COLUMN_BYTE_MAX as int
    &&& b.3 <= TEXT_COLUMN_BYTE_MAX as int
}

proof fn lemma_row_bytes_take_step(rows: Seq<RowView>, i: int)
    requires
        0 <= i < rows.len(),
    ensures
        ({
            let p = row_bytes(rows.take(i));
            let q = row_bytes(rows.take(i + 1));
            &&& q.0 == p.0 + utf8_len(rows[i].0)
            &&& q.1 == p.1 + utf8_len(rows[i].1)
            &&& q.2 == p.2 + utf8_len(rows[i].2)
            &&& q.3 == p.3 + opt_utf8_len(rows[i].3)
        }),
{
    assert(rows.take(i + 1).drop_last() =~= rows.take(i));
    assert(rows.take(i + 1).last() == rows[i]);
}

/// Each column's byte total over a prefix never exceeds the total over
/// the whole row sequence.
proof fn lemma_row_bytes_prefix(rows: Seq<RowView>, i: int)
    requires
        0 <= i <= rows.len(),
    ensures
        ({
            let p = row_bytes(rows.take(i));
            let t = row_bytes(rows);
            &&& p.0 <= t.0
            &&& p.1 <= t.1
            &&& p.2 <= t.2
            &&& p.3 <= t.3
        }),
    decreases rows.len() - i,
{
    if i == rows.len() {
        assert(rows.take(i) =~= rows);
    } else {
        lemma_row_bytes_take_step(rows, i);
        lemma_row_bytes_prefix(rows, i + 1);
    }
}

/// Law: projection preserves every field exactly, row for row. The three
/// required cells hold the given text unchanged, and the optional
/// created_at cell is null exactly when the record left it absent, else
/// the given text unchanged.
pub proof fn lemma_projection_preserves_fields(vs: Seq<VolumeRecord>, i: int)
    requires
        0 <= i < vs.len(),
        required_present(vs[i]),
    ensures
        rows_of_records(vs)[i].0 == vs[i].name->0@,
        rows_of_records(vs)[i].1 == vs[i].driver->0@,
        rows_of_records(vs)[i].2 == vs[i].mountpoint->0@,
        vs[i].created_at is None ==> rows_of_records(vs)[i].3 is None,
        vs[i].created_at matches Some(s) ==> rows_of_records(vs)[i].3 == Some(s@),
{
    assert(rows_of_records(vs)[i] == row_of(vs[i]));
}

/// The in-memory columnar table: one vector per canonical column. Row `i`
/// of the table is entry `i` of each vector.
#[derive(Debug)]
pub struct VolumeBatch {
    pub names: Vec<String>,
    pub drivers: Vec<String>,
    pub mountpoints: Vec<String>,
    pub created_ats: Vec<Option<String>>,
}

impl VolumeBatch {
    /// All four column arrays have the same length.
    pub open spec fn columns_aligned(self) -> bool {
        &&& self.drivers@.len() == self.names@.len()
        &&& self.mountpoints@.len() == self.names@.len()
        &&& self.created_ats@.len() == self.names@.len()
    }

    /// Each column's total byte length stays within the offset limit its
    /// array can address.
    pub open spec fn fits(self) -> bool {
        rows_fit(self.rows())
    }

    /// The batch can be placed in column arrays: equal column lengths and
    /// every column within the offset limit.
    pub open spec fn wf(self) -> bool {
        self.columns_aligned() && self.fits()
    }

    pub open spec fn num_rows(self) -> nat {
        self.names@.len()
    }

    /// The table read row-wise.
    pub open spec fn rows(self) -> Seq<RowView> {
        Seq::new(
            self.names@.len(),
            |i: int|
                (
                    self.names@[i]@,
                    self.drivers@[i]@,
                    self.mountpoints@[i]@,
                    opt_text_view(self.created_ats@[i]),
                ),
        )
    }

    /// Decides the defensive well-formedness check: equal column lengths,
    /// and every column's byte total within the offset limit.
    pub fn check_wf(&self) -> (b: bool)
        ensures
            b == self.wf(),
    {
        if !(self.drivers.len() == self.names.len() && self.mountpoints.len() == self.names.len()
            && self.created_ats.len() == self.names.len()) {
            return false;
        }
        let ghost rows = self.rows();
        let mut s0: u64 = 0;
        let mut s1: u64 = 0;
        let mut s2: u64 = 0;
        let mut s3: u64 = 0;
        let mut i: usize = 0;
        while i < self.names.len()
            invariant
                self.columns_aligned(),
                rows == self.rows(),
                rows.len() == self.names@.len(),
                i <= self.names@.len(),
                (s0 as int, s1 as int, s2 as int, s3 as int) == row_bytes(rows.take(i as int)),
                s0 <= TEXT_COLUMN_BYTE_MAX,
                s1 <= TEXT_COLUMN_BYTE_MAX,
                s2 <= TEXT_COLUMN_BYTE_MAX,
                s3 <= TEXT_COLUMN_BYTE_MAX,
            decreases self.names@.len() - i,
        {
            proof {
                lemma_row_bytes_take_step(rows, i as int);
                assert(rows[i as int] == (
                    self.names@[i as int]@,
                    self.drivers@[i as int]@,
                    self.mountpoints@[i as int]@,
                    opt_text_view(self.created_ats@[i as int]),
                ));
            }
            let l0 = self.names[i].as_str().as_bytes().len() as u64;
            let l1 = self.drivers[i].as_str().as_bytes().len() as u64;
            let l2 = self.mountpoints[i].as_str().as_bytes().len() as u64;
            let l3: u64 = match &self.created_ats[i] {
                Some(s) => s.as_str().as_bytes().len() as u64,
                None => 0,
            };
            if l0 > TEXT_COLUMN_BYTE_MAX - s0 || l1 > TEXT_COLUMN_BYTE_MAX - s1 || l2
                > TEXT_COLUMN_BYTE_MAX - s2 || l3 > TEXT_COLUMN_BYTE_MAX - s3 {
                proof {
                    lemma_row_bytes_prefix(rows, i as int + 1);
                }
                return false;
            }
            s0 = s0 + l0;
            s1 = s1 + l1;
            s2 = s2 + l2;
            s3 = s3 + l3;
            i = i + 1;
        }
        proof {
            assert(rows.take(rows.len() as int) =~= rows);
        }
        true
    }
}

/// Projects daemon records into one columnar batch targeting `schema`.
///
/// Row order is preserved exactly: record `i` becomes row `i`. A present
/// optional value is stored as given, an absent one becomes a null entry.
/// A record that misses a required field, a target schema that is not the
/// canonical one, or a column that outgrows the offset limit its array
/// can address, is a schema violation and produces no batch.
pub fn volumes2batch(volumes: Vec<VolumeRecord>, schema: &VolumeSchema) -> (r: Result<
    VolumeBatch,
    VolumeError,
>)
    ensures
        r is Ok <==> schema.is_canonical() && all_required_present(volumes@) && rows_fit(
            rows_of_records(volumes@),
        ),
        r matches Ok(b) ==> b.wf() && b.num_rows() == volumes@.len() && b.rows()
            == rows_of_records(volumes@),
        r matches Err(e) ==> e == VolumeError::SchemaViolation,
{
    if !schema.matches_canonical() {
        return Err(VolumeError::SchemaViolation);
    }
    let mut names: Vec<String> = Vec::new();
    let mut drivers: Vec<String> = Vec::new();
    let mut mountpoints: Vec<String> = Vec::new();
    let mut created_ats: Vec<Option<String>> = Vec::new();
    let mut i: usize = 0;
    while i < volumes.len()
        invariant
            i <= volumes@.len(),
            names@.len() == i,
            drivers@.len() == i,
            mountpoints@.len() == i,
            created_ats@.len() == i,
            forall|j: int| 0 <= j < i ==> required_present(#[trigger] volumes@[j]),
            forall|j: int| 0 <= j < i ==> #[trigger] names@[j]@ == volumes@[j].name->0@,
            forall|j: int| 0 <= j < i ==> #[trigger] drivers@[j]@ == volumes@[j].driver->0@,
            forall|j: int| 0 <= j < i ==> #[trigger] mountpoints@[j]@ == volumes@[j].mountpoint->0@,
            forall|j: int|
                0 <= j < i ==> #[trigger] opt_text_view(created_ats@[j]) == opt_text_view(
                    volumes@[j].created_at,
                ),
        decreases volumes@.len() - i,
    {
        let v = &volumes[i];
        match &v.name {
            Some(s) => names.push(s.clone()),
            None => {
                return Err(VolumeError::SchemaViolation);
            },
        }
        match &v.driver {
            Some(s) => drivers.push(s.clone()),
            None => {
                return Err(VolumeError::SchemaViolation);
            },
        }
        match &v.mountpoint {
            Some(s) => mountpoints.push(s.clone()),
            None => {
                return Err(VolumeError::SchemaViolation);
            },
        }
        match &v.created_at {
            Some(s) => created_ats.push(Some(s.clone())),
            None => created_ats.push(None),
        }
        i = i + 1;
    }
    let b = VolumeBatch { names, drivers, mountpoints, created_ats };
    proof {
        assert(b.rows() =~= rows_of_records(volumes@));
    }
    if !b.check_wf() {
        return Err(VolumeError::SchemaViolation);
    }
    Ok(b)
}

} // verus!
