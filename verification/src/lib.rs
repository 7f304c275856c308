//! An adaptive record-column builder: an ordered, fixed-length collection of
//! field slots, each pairing schema metadata with one column builder of a
//! closed set of encoding kinds. Appends are routed to a slot through
//! capability-typed accessors that answer only when the stored kind matches
//! the expected one; finalizing drains every slot and assembles the columns
//! that received data into one immutable record array, omitting the rest.

pub mod arrays;
pub mod builders;
pub mod model;
pub mod structs;

pub use arrays::ColumnArray;
pub use arrays::RecordArray;
pub use builders::AppendRejection;
pub use builders::ArrayOptions;
pub use builders::BinaryArrayBuilder;
pub use builders::DictionaryOptions;
pub use builders::FixedSizeBinaryArrayBuilder;
pub use builders::StringArrayBuilder;
pub use builders::UInt8ArrayBuilder;
pub use model::BuilderKind;
pub use model::ColVal;
pub use model::FieldModel;
pub use structs::AdaptiveStructBuilder;
pub use structs::CheckedFieldHandle;
pub use structs::FieldBuilder;
pub use structs::FieldData;
pub use structs::FieldHandle;
