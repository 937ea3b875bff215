//! Data model of a compiler-emitted storage layout: the ordered list of
//! declared state variables (each with its contract, label, slot and byte
//! offset) together with the table describing the referenced types.

use vstd::prelude::*;

verus! {

/// One declared state variable of a contract, as the compiler reports it.
///
/// `slot` is an unsigned integer encoded as a decimal string; `offset` is the
/// byte offset of the variable inside that slot. `storage_type` is a name
/// referring into the layout's type table. The identity of a variable for
/// compatibility purposes is the pair `(contract, label)`.
pub struct StorageVariable {
    pub ast_id: u64,
    pub contract: String,
    pub label: String,
    pub offset: u64,
    pub slot: String,
    pub storage_type: String,
}

/// Description of one entry of the type table: its encoding, human-readable
/// label, byte size, and, for struct types, the layout of its members.
pub struct TypeInfo {
    pub encoding: String,
    pub label: String,
    pub number_of_bytes: u64,
    pub members: Option<Vec<StorageVariable>>,
}

/// A named entry of the type table.
pub struct TypeEntry {
    pub name: String,
    pub info: TypeInfo,
}

/// A complete storage layout: the declared variables in declaration order,
/// plus the table of the types they refer to. The type table is carried
/// along but never consulted by the compatibility check.
pub struct StorageLayout {
    pub storage: Vec<StorageVariable>,
    pub types: Vec<TypeEntry>,
}

/// Two variables have the same identity key when contract and label agree.
pub open spec fn key_eq(a: StorageVariable, b: StorageVariable) -> bool {
    a.contract@ == b.contract@ && a.label@ == b.label@
}

/// Two variables occupy the same storage location: equal slot and offset.
/// The declared type is deliberately not part of this relation.
pub open spec fn same_location(a: StorageVariable, b: StorageVariable) -> bool {
    a.slot@ == b.slot@ && a.offset == b.offset
}

/// Everything the compatibility check reads of a variable: its identity
/// key and its location. The ast id and the declared type are not part of
/// it.
pub open spec fn shape_eq(a: StorageVariable, b: StorageVariable) -> bool {
    a.contract@ == b.contract@ && a.label@ == b.label@ && a.slot@ == b.slot@ && a.offset
        == b.offset
}

} // verus!
