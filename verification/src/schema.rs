use vstd::prelude::*;
use vstd::string::StringExecFns;

verus! {

/// The one primitive column type the volume schema uses.
#[derive(Clone, Copy, Debug, PartialEq, Eq, Structural)]
pub enum ColumnType {
    Text,
}

/// One column descriptor: a name, a primitive type and a nullability flag.
#[derive(Debug)]
pub struct ColumnSpec {
    pub name: String,
    pub column_type: ColumnType,
    pub nullable: bool,
}

/// An ordered list of column descriptors: the shape every produced batch
/// must conform to.
#[derive(Debug)]
pub struct VolumeSchema {
    pub columns: Vec<ColumnSpec>,
}

/// The canonical column list: name, driver and mountpoint are required text,
/// created_at is nullable text.
pub open spec fn canonical_columns() -> Seq<(Seq<char>, bool)> {
    seq![("name"@, false), ("driver"@, false), ("mountpoint"@, false), ("created_at"@, true)]
}

impl VolumeSchema {
    /// The columns as (name, nullable) pairs, in order.
    pub open spec fn columns_view(self) -> Seq<(Seq<char>, bool)> {
        self.columns@.map_values(|c: ColumnSpec| (c.name@, c.nullable))
    }

    pub open spec fn all_text(self) -> bool {
        forall|i: int|
            0 <= i < self.columns@.len() ==> (#[trigger] self.columns@[i]).column_type
                == ColumnType::Text
    }

    /// A schema is canonical when it lists exactly the four volume columns,
    /// in order, with their fixed nullability, all of text type.
    pub open spec fn is_canonical(self) -> bool {
        self.columns_view() == canonical_columns() && self.all_text()
    }

    /// Decides structural equality with the canonical schema.
    pub fn matches_canonical(&self) -> (b: bool)
        ensures
            b == self.is_canonical(),
    {
        if self.columns.len() != 4 {
            assert(!self.is_canonical()) by {
                assert(self.columns_view().len() == self.columns@.len());
                assert(canonical_columns().len() == 4);
            }
            return false;
        }
        let ok: bool = self.columns[0].name == String::from_str("name") && !self.columns[0].nullable
            && self.columns[1].name == String::from_str("driver") && !self.columns[1].nullable
            && self.columns[2].name == String::from_str("mountpoint")
            && !self.columns[2].nullable && self.columns[3].name == String::from_str("created_at")
            && self.columns[3].nullable;
        proof {
            assert(self.all_text());
            assert(self.columns_view().len() == 4);
            assert(self.columns_view()[0] == (self.columns@[0].name@, self.columns@[0].nullable));
            assert(self.columns_view()[1] == (self.columns@[1].name@, self.columns@[1].nullable));
            assert(self.columns_view()[2] == (self.columns@[2].name@, self.columns@[2].nullable));
            assert(self.columns_view()[3] == (self.columns@[3].name@, self.columns@[3].nullable));
            if ok {
                assert(self.columns_view() =~= canonical_columns());
            } else {
                assert(self.columns_view() != canonical_columns());
            }
        }
        ok
    }
}

/// Produces the canonical schema value: the single source of truth both the
/// record projector and the streaming writer consult.
pub fn a_schema() -> (r: VolumeSchema)
    ensures
        r.is_canonical(),
{
    let mut columns: Vec<ColumnSpec> = Vec::new();
    columns.push(
        ColumnSpec {
            name: String::from_str("name"),
            column_type: ColumnType::Text,
            nullable: false,
        },
    );
    columns.push(
        ColumnSpec {
            name: String::from_str("driver"),
            column_type: ColumnType::Text,
            nullable: false,
        },
    );
    columns.push(
        ColumnSpec {
            name: String::from_str("mountpoint"),
            column_type: ColumnType::Text,
            nullable: false,
        },
    );
    columns.push(
        ColumnSpec {
            name: String::from_str("created_at"),
            column_type: ColumnType::Text,
            nullable: true,
        },
    );
    let r = VolumeSchema { columns };
    proof {
        assert(r.columns_view() =~= canonical_columns());
    }
    r
}

} // verus!
