//! The texture capabilities of a context: which texel data types may be
//! used and filtered, and which internal formats stand in for others.
//! Extensions widen these capabilities when they are enabled; nothing ever
//! narrows them.

use vstd::prelude::*;
use std::collections::HashMap;
use std::collections::HashSet;
use crate::constants::{FLOAT, HALF_FLOAT};

verus! {

broadcast use vstd::std_specs::hash::group_hash_axioms;

/// Mathematical state of the texture capabilities.
#[verifier::ext_equal]
pub struct TextureCapabilities {
    /// The texel data types that may not be used yet.
    pub disabled_tex_types: Set<u32>,
    /// The texel data types that may not be filtered yet.
    pub not_filterable_tex_types: Set<u32>,
    /// For a pair of internal format and data type, the internal format to
    /// use in its place.
    pub effective_tex_internal_formats: Map<(u32, u32), u32>,
}

impl TextureCapabilities {
    /// The capabilities of a context without extensions: floating point
    /// texels can be neither used nor filtered, and no format is replaced.
    pub open spec fn initial() -> TextureCapabilities {
        TextureCapabilities {
            disabled_tex_types: set![FLOAT, HALF_FLOAT],
            not_filterable_tex_types: set![FLOAT, HALF_FLOAT],
            effective_tex_internal_formats: Map::empty(),
        }
    }

    pub open spec fn is_tex_type_enabled(self, data_type: u32) -> bool {
        !self.disabled_tex_types.contains(data_type)
    }

    pub open spec fn is_filterable(self, data_type: u32) -> bool {
        !self.not_filterable_tex_types.contains(data_type)
    }

    /// The internal format to use for `(internal_format, data_type)`: the
    /// replacement if one was added, else `internal_format` itself.
    pub open spec fn effective_tex_internal_format(self, internal_format: u32, data_type: u32) -> u32 {
        if self.effective_tex_internal_formats.dom().contains((internal_format, data_type)) {
            self.effective_tex_internal_formats[(internal_format, data_type)]
        } else {
            internal_format
        }
    }

    pub open spec fn enable_tex_type(self, data_type: u32) -> TextureCapabilities {
        TextureCapabilities {
            disabled_tex_types: self.disabled_tex_types.remove(data_type),
            ..self
        }
    }

    pub open spec fn enable_filterable_tex_type(self, data_type: u32) -> TextureCapabilities {
        TextureCapabilities {
            not_filterable_tex_types: self.not_filterable_tex_types.remove(data_type),
            ..self
        }
    }

    pub open spec fn add_effective_tex_internal_format(
        self,
        internal_format: u32,
        data_type: u32,
        effective_internal_format: u32,
    ) -> TextureCapabilities {
        TextureCapabilities {
            effective_tex_internal_formats: self.effective_tex_internal_formats.insert(
                (internal_format, data_type),
                effective_internal_format,
            ),
            ..self
        }
    }

    /// Whether `later` allows everything that `self` allows: no data type
    /// has become disabled or unfilterable, and no replacement was dropped.
    pub open spec fn widens_to(self, later: TextureCapabilities) -> bool {
        &&& later.disabled_tex_types.subset_of(self.disabled_tex_types)
        &&& later.not_filterable_tex_types.subset_of(self.not_filterable_tex_types)
        &&& self.effective_tex_internal_formats.dom().subset_of(
            later.effective_tex_internal_formats.dom(),
        )
    }
}

/// The key under which the replacement for a pair of internal format and
/// data type is stored: the internal format in the upper half, the data type
/// in the lower half.
pub open spec fn format_key(format: (u32, u32)) -> u64 {
    (format.0 as u64 * 0x1_0000_0000 + format.1 as u64) as u64
}

/// The replacements stored under their keys, as a map over pairs.
pub open spec fn formats_by_pair(stored: Map<u64, u32>) -> Map<(u32, u32), u32> {
    Map::new(
        |format: (u32, u32)| stored.dom().contains(format_key(format)),
        |format: (u32, u32)| stored[format_key(format)],
    )
}

/// Different pairs are stored under different keys.
proof fn lemma_format_key_injective(a: (u32, u32), b: (u32, u32))
    requires
        format_key(a) == format_key(b),
    ensures
        a == b,
{
}

/// The texture capabilities of a context.
pub struct TextureCapabilityTable {
    disabled_tex_types: HashSet<u32>,
    not_filterable_tex_types: HashSet<u32>,
    effective_tex_internal_formats: HashMap<u64, u32>,
}

impl View for TextureCapabilityTable {
    type V = TextureCapabilities;

    closed spec fn view(&self) -> TextureCapabilities {
        TextureCapabilities {
            disabled_tex_types: self.disabled_tex_types@,
            not_filterable_tex_types: self.not_filterable_tex_types@,
            effective_tex_internal_formats: formats_by_pair(self.effective_tex_internal_formats@),
        }
    }
}

impl TextureCapabilityTable {
    /// The capabilities of a context without extensions.
    pub fn new() -> (table: TextureCapabilityTable)
        ensures
            table@ == TextureCapabilities::initial(),
    {
        let mut disabled_tex_types: HashSet<u32> = HashSet::new();
        disabled_tex_types.insert(FLOAT);
        disabled_tex_types.insert(HALF_FLOAT);
        let mut not_filterable_tex_types: HashSet<u32> = HashSet::new();
        not_filterable_tex_types.insert(FLOAT);
        not_filterable_tex_types.insert(HALF_FLOAT);
        let table = TextureCapabilityTable {
            disabled_tex_types,
            not_filterable_tex_types,
            effective_tex_internal_formats: HashMap::new(),
        };
        assert(table@.disabled_tex_types =~= set![FLOAT, HALF_FLOAT]);
        assert(table@.not_filterable_tex_types =~= set![FLOAT, HALF_FLOAT]);
        assert(table@.effective_tex_internal_formats =~= Map::empty());
        table
    }

    /// Allows the use of texels of `data_type`.
    pub fn enable_tex_type(&mut self, data_type: u32)
        ensures
            final(self)@ == old(self)@.enable_tex_type(data_type),
    {
        self.disabled_tex_types.remove(&data_type);
    }

    pub fn is_tex_type_enabled(&self, data_type: u32) -> (enabled: bool)
        ensures
            enabled == self@.is_tex_type_enabled(data_type),
    {
        !self.disabled_tex_types.contains(&data_type)
    }

    /// Records that `effective_internal_format` is to be used in place of
    /// `source_internal_format` for texels of `source_data_type`. A later
    /// record for the same pair replaces an earlier one.
    pub fn add_effective_tex_internal_format(
        &mut self,
        source_internal_format: u32,
        source_data_type: u32,
        effective_internal_format: u32,
    )
        ensures
            final(self)@ == old(self)@.add_effective_tex_internal_format(
                source_internal_format,
                source_data_type,
                effective_internal_format,
            ),
    {
        let key: u64 = pack(source_internal_format, source_data_type);
        self.effective_tex_internal_formats.insert(key, effective_internal_format);
        proof {
            let expected = old(self)@.effective_tex_internal_formats.insert(
                (source_internal_format, source_data_type),
                effective_internal_format,
            );
            assert forall|format: (u32, u32)|
                self@.effective_tex_internal_formats.dom().contains(format)
                    == expected.dom().contains(format) by {
                if format_key(format) == key {
                    lemma_format_key_injective(format, (source_internal_format, source_data_type));
                }
            }
            assert forall|format: (u32, u32)| #[trigger]
                self@.effective_tex_internal_formats.dom().contains(
                    format,
                ) implies self@.effective_tex_internal_formats[format] == expected[format] by {
                if format_key(format) == key {
                    lemma_format_key_injective(format, (source_internal_format, source_data_type));
                }
            }
            assert(self@.effective_tex_internal_formats =~= expected);
        }
    }

    /// The internal format to use for texels of `source_data_type` in
    /// `source_internal_format`.
    pub fn get_effective_tex_internal_format(
        &self,
        source_internal_format: u32,
        source_data_type: u32,
    ) -> (format: u32)
        ensures
            format == self@.effective_tex_internal_format(source_internal_format, source_data_type),
    {
        let key: u64 = pack(source_internal_format, source_data_type);
        match self.effective_tex_internal_formats.get(&key) {
            Some(format) => *format,
            None => source_internal_format,
        }
    }

    /// Allows the filtering of texels of `data_type`.
    pub fn enable_filterable_tex_type(&mut self, data_type: u32)
        ensures
            final(self)@ == old(self)@.enable_filterable_tex_type(data_type),
    {
        self.not_filterable_tex_types.remove(&data_type);
    }

    pub fn is_filterable(&self, data_type: u32) -> (filterable: bool)
        ensures
            filterable == self@.is_filterable(data_type),
    {
        !self.not_filterable_tex_types.contains(&data_type)
    }
}

/// Computes the key for a pair of internal format and data type.
fn pack(internal_format: u32, data_type: u32) -> (key: u64)
    ensures
        key == format_key((internal_format, data_type)),
{
    internal_format as u64 * 0x1_0000_0000 + data_type as u64
}

/// Every change to the texture capabilities widens them.
pub proof fn lemma_texture_capabilities_only_widen(
    capabilities: TextureCapabilities,
    data_type: u32,
    internal_format: u32,
    effective_internal_format: u32,
)
    ensures
        capabilities.widens_to(capabilities.enable_tex_type(data_type)),
        capabilities.widens_to(capabilities.enable_filterable_tex_type(data_type)),
        capabilities.widens_to(
            capabilities.add_effective_tex_internal_format(
                internal_format,
                data_type,
                effective_internal_format,
            ),
        ),
{
}

} // verus!
