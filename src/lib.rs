//! A 128-bit universally unique identifier: the value type, its codecs, the
//! version and variant bits, and the generators of RFC 4122 and RFC 9562.

pub mod generate;
pub mod laws;
pub mod node;
pub mod text;
pub mod value;

pub use generate::{
    hash_name, uuid1, uuid3, uuid3_str, uuid4, uuid5, uuid5_str, uuid6, uuid7, uuid8, NameHash,
};
pub use node::{node_from_hardware, node_from_random, resolve_node, NodeCache};
pub use value::{
    Fields, Uuid, UuidError, Variant, NAMESPACE_DNS, NAMESPACE_OID, NAMESPACE_URL, NAMESPACE_X500,
    RESERVED_FUTURE, RESERVED_MICROSOFT, RESERVED_NCS, RFC_4122,
};
