//! The memory plan of an instance of a native type: the base object first, then the native
//! payload, then the dictionary slot and the weak-reference slot where the type has them.

use vstd::prelude::*;

verus! {

/// The bytes that a dictionary slot or a weak-reference slot takes: those of one pointer.
pub open spec fn slot_size() -> nat {
    vstd::layout::size_of::<usize>()
}

/// The layout of what a native type extends.
#[derive(Debug, PartialEq, Eq)]
pub enum BaseLayout {
    /// An object of the host runtime's own making, of the given size.
    Native { name: &'static str, size: usize },
    /// An instance of another native type.
    Class(Box<LayoutDescriptor>),
}

/// The layout of an instance of one native type.
#[derive(Debug, PartialEq, Eq)]
pub struct LayoutDescriptor {
    pub name: &'static str,
    pub base: BaseLayout,
    pub payload_size: usize,
    /// Where the dictionary slot begins, if there is one.
    pub dict_offset: Option<usize>,
    /// Where the weak-reference slot begins, if there is one.
    pub weakref_offset: Option<usize>,
    pub size: usize,
}

impl BaseLayout {
    /// The bytes of the base object.
    pub open spec fn spec_size(self) -> nat {
        match self {
            BaseLayout::Native { size, .. } => size as nat,
            BaseLayout::Class(layout) => layout.size as nat,
        }
    }

    /// The name of the base type.
    pub open spec fn spec_name(self) -> &'static str {
        match self {
            BaseLayout::Native { name, .. } => name,
            BaseLayout::Class(layout) => layout.name,
        }
    }

    /// Whether construction has to supply a payload for the base object itself.
    pub open spec fn spec_need_init(self) -> bool {
        match self {
            BaseLayout::Native { .. } => false,
            BaseLayout::Class(layout) => layout.spec_need_init(),
        }
    }

    /// Every level of the base is laid out as [`LayoutDescriptor::wf`] says.
    pub open spec fn wf(self) -> bool
        decreases self,
    {
        match self {
            BaseLayout::Native { .. } => true,
            BaseLayout::Class(layout) => layout.wf(),
        }
    }

    /// The number of native levels in the base.
    pub open spec fn depth(self) -> nat
        decreases self,
    {
        match self {
            BaseLayout::Native { .. } => 0,
            BaseLayout::Class(layout) => layout.depth(),
        }
    }

    /// The bytes of the base object.
    pub fn size(&self) -> (size: usize)
        ensures
            size == self.spec_size(),
    {
        match self {
            BaseLayout::Native { size, .. } => *size,
            BaseLayout::Class(layout) => layout.size,
        }
    }

    /// The name of the base type.
    pub fn name(&self) -> (name: &'static str)
        ensures
            name == self.spec_name(),
    {
        match self {
            BaseLayout::Native { name, .. } => *name,
            BaseLayout::Class(layout) => layout.name,
        }
    }

    /// Whether construction has to supply a payload for the base object itself.
    pub fn need_init(&self) -> (required: bool)
        ensures
            required == self.spec_need_init(),
    {
        match self {
            BaseLayout::Native { .. } => false,
            BaseLayout::Class(layout) => layout.need_init(),
        }
    }

    /// Whether the base is an object of the host runtime's own making.
    pub fn is_native(&self) -> (native: bool)
        ensures
            native == (self is Native),
    {
        match self {
            BaseLayout::Native { .. } => true,
            BaseLayout::Class(_) => false,
        }
    }
}

impl LayoutDescriptor {
    /// Whether construction has to supply a payload: it has to where the payload takes room.
    pub open spec fn spec_need_init(self) -> bool {
        self.payload_size != 0
    }

    /// Where the room after the payload begins: after the base object and the payload.
    pub open spec fn payload_end(self) -> nat {
        self.base.spec_size() + self.payload_size as nat
    }

    /// The bytes of the slots that are present.
    pub open spec fn slots_size(self) -> nat {
        (if self.dict_offset is Some {
            slot_size()
        } else {
            0
        }) + (if self.weakref_offset is Some {
            slot_size()
        } else {
            0
        })
    }

    /// The layout is composed as it should be, at every level: the dictionary slot, if
    /// there is one, begins where the payload ends; the weak-reference slot, if there is
    /// one, begins after that; and the size is that of the base object, the payload and the
    /// slots that are present.
    pub open spec fn wf(self) -> bool
        decreases self,
    {
        &&& self.base.wf()
        &&& self.dict_offset matches Some(offset) ==> offset == self.payload_end()
        &&& self.weakref_offset matches Some(offset) ==> offset == self.payload_end() + (
        if self.dict_offset is Some {
            slot_size()
        } else {
            0
        })
        &&& self.size == self.payload_end() + self.slots_size()
    }

    /// The number of native levels: this one and those of the base.
    pub open spec fn depth(self) -> nat
        decreases self,
    {
        1 + self.base.depth()
    }

    /// Whether construction has to supply a payload.
    pub fn need_init(&self) -> (required: bool)
        ensures
            required == self.spec_need_init(),
    {
        self.payload_size != 0
    }

    /// The layout of a type that extends `base` by a payload of `payload_size` bytes, with a
    /// dictionary slot and a weak-reference slot as asked for. There is none where the size
    /// does not fit the machine.
    pub fn new(
        name: &'static str,
        base: BaseLayout,
        payload_size: usize,
        has_dict: bool,
        has_weakref: bool,
    ) -> (composed: Option<LayoutDescriptor>)
        requires
            base.wf(),
        ensures
            composed is Some <==> base.spec_size() + payload_size + (if has_dict {
                slot_size()
            } else {
                0
            }) + (if has_weakref {
                slot_size()
            } else {
                0
            }) <= usize::MAX,
            composed matches Some(layout) ==> {
                &&& layout.wf()
                &&& layout.name == name
                &&& layout.base == base
                &&& layout.payload_size == payload_size
                &&& layout.dict_offset is Some == has_dict
                &&& layout.weakref_offset is Some == has_weakref
            },
    {
        let slot = core::mem::size_of::<usize>();
        let payload_end = match base.size().checked_add(payload_size) {
            Some(end) => end,
            None => {
                return None;
            },
        };
        let mut size = payload_end;
        let dict_offset = if has_dict {
            let offset = size;
            size = match size.checked_add(slot) {
                Some(end) => end,
                None => {
                    return None;
                },
            };
            Some(offset)
        } else {
            None
        };
        let weakref_offset = if has_weakref {
            let offset = size;
            size = match size.checked_add(slot) {
                Some(end) => end,
                None => {
                    return None;
                },
            };
            Some(offset)
        } else {
            None
        };
        Some(LayoutDescriptor { name, base, payload_size, dict_offset, weakref_offset, size })
    }
}

/// The size of a layout is that of its base, its payload and its present slots, and the
/// slots lie after the payload, the dictionary slot before the weak-reference slot.
pub proof fn law_layout_size(layout: LayoutDescriptor)
    requires
        layout.wf(),
    ensures
        layout.size == layout.base.spec_size() + layout.payload_size + layout.slots_size(),
        layout.dict_offset matches Some(d) ==> layout.base.spec_size() + layout.payload_size <= d
            && d + slot_size() <= layout.size,
        layout.weakref_offset matches Some(w) ==> layout.base.spec_size() + layout.payload_size
            <= w && w + slot_size() <= layout.size,
        layout.dict_offset is Some && layout.weakref_offset is Some ==> layout.dict_offset->0
            + slot_size() == layout.weakref_offset->0,
{
}

} // verus!
