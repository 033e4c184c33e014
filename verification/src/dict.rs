//! The dictionary: the schema catalog of a database.
//!
//! The dictionary describes classes (tables), their fields and their
//! indexes. The SQL layer consults it for every statement compile, and
//! dynamic schema changes are bounded by the capacity reserved when the
//! database is opened (`max_classes`, `max_indexes`, `ddl_dict_size`):
//! exceeding a reservation is reported, never silently absorbed.
//!
//! Invariant: every index's declared fields resolve to valid field
//! ordinals of its owning class.

use vstd::prelude::*;

use crate::sql::value::Type;
use crate::{CoreCode, CoreError, Error};

verus! {

/// The layout of a field within its class: compact and unpacked sizes,
/// alignments and offsets.
#[derive(Clone, Copy, Debug, PartialEq, Eq, Structural)]
pub struct DictLayout {
    /// Compact size.
    pub c_size: u32,
    /// Compact alignment.
    pub c_align: u32,
    /// Compact offset.
    pub c_offset: u32,
    /// Unpacked size.
    pub u_size: u32,
    /// Unpacked alignment.
    pub u_align: u32,
    /// Unpacked offset.
    pub u_offset: u32,
}

impl DictLayout {
    /// Creates a zeroed layout.
    fn new() -> (r: Self)
        ensures
            r == (DictLayout {
                c_size: 0u32,
                c_align: 0u32,
                c_offset: 0u32,
                u_size: 0u32,
                u_align: 0u32,
                u_offset: 0u32,
            }),
    {
        DictLayout { c_size: 0, c_align: 0, c_offset: 0, u_size: 0, u_align: 0, u_offset: 0 }
    }
}

/// A field of a class: its name, declared type and layout.
pub struct DictField {
    /// The field name.
    pub name: String,
    /// The field layout.
    pub layout: DictLayout,
    /// The declared element type.
    pub field_el_type: Type,
    /// The field ordinal within its class.
    pub no: u16,
    /// The field size in bytes.
    pub field_size: u32,
    /// The numeric precision, for fixed-width numeric fields.
    pub precision: u8,
}

impl DictField {
    /// Creates a field with an empty name and zeroed attributes.
    pub fn new() -> (r: Self)
        ensures
            r.name@ == Seq::<char>::empty(),
            r.layout == (DictLayout {
                c_size: 0u32,
                c_align: 0u32,
                c_offset: 0u32,
                u_size: 0u32,
                u_align: 0u32,
                u_offset: 0u32,
            }),
            r.field_el_type == Type::Null,
            r.no == 0u16,
            r.field_size == 0u32,
            r.precision == 0u8,
    {
        DictField {
            name: String::new(),
            layout: DictLayout::new(),
            field_el_type: Type::Null,
            no: 0,
            field_size: 0,
            precision: 0,
        }
    }
}

/// A class (table) descriptor: its name and fields.
pub struct DictStruct {
    /// The class name.
    pub name: String,
    /// Class flags.
    pub flags: u16,
    /// The fields, in declaration order.
    pub fields: Vec<DictField>,
    /// The event descriptors of the class.
    pub events: Vec<DictEvent>,
}

impl DictStruct {
    /// Creates a class descriptor with an empty name, no fields and no
    /// events.
    pub fn new() -> (r: Self)
        ensures
            r.name@ == Seq::<char>::empty(),
            r.flags == 0u16,
            r.fields@.len() == 0,
            r.events@.len() == 0,
    {
        DictStruct { name: String::new(), flags: 0, fields: Vec::new(), events: Vec::new() }
    }
}

/// One field of an index: which field of the class it covers and how it is
/// compared.
#[derive(Clone, Copy, Debug, PartialEq, Eq, Structural)]
pub struct DictIndexField {
    /// The byte offset of the covered field.
    pub field_offset: u32,
    /// The size of the covered field.
    pub field_size: u32,
    /// The ordinal of the covered field within the class.
    pub fld_no: u16,
    /// Compare in descending order.
    pub descending: bool,
    /// Compare case-insensitively.
    pub case_insensitive: bool,
    /// The field may hold nulls.
    pub nullable: bool,
}

impl DictIndexField {
    /// Creates an index field with default attributes.
    pub fn new() -> (r: Self)
        ensures
            r == (DictIndexField {
                field_offset: 0u32,
                field_size: 0u32,
                fld_no: 0u16,
                descending: false,
                case_insensitive: false,
                nullable: false,
            }),
    {
        DictIndexField {
            field_offset: 0,
            field_size: 0,
            fld_no: 0,
            descending: false,
            case_insensitive: false,
            nullable: false,
        }
    }

    /// Creates a zeroed index field.
    pub fn zero() -> (r: Self)
        ensures
            r == (DictIndexField {
                field_offset: 0u32,
                field_size: 0u32,
                fld_no: 0u16,
                descending: false,
                case_insensitive: false,
                nullable: false,
            }),
    {
        DictIndexField::new()
    }
}


/// The physical implementation of an index: which structure carries its
/// entries, and whether it lives in memory or on the persistent store.
#[derive(Clone, Copy, Debug, PartialEq, Eq, Structural)]
pub enum IndexImpl {
    /// An in-memory ordered tree.
    BTreeInMem,
    /// An on-disk ordered tree.
    BTreeDisk,
    /// An in-memory hash table.
    HashInMem,
    /// An in-memory k-dimensional tree.
    KDTreeInMem,
    /// An on-disk k-dimensional tree.
    KDTreeDisk,
    /// An in-memory rectangle tree.
    RTreeInMem,
    /// An on-disk rectangle tree.
    RTreeDisk,
    /// An in-memory radix (Patricia) trie.
    PatriciaInMem,
    /// An on-disk radix (Patricia) trie.
    PatriciaDisk,
    /// An in-memory trigram index.
    TrigramInMem,
    /// An on-disk trigram index.
    TrigramDisk,
}

/// An event descriptor of a class: a notification hook raised when a
/// field changes.
#[derive(Clone, Copy, Debug, PartialEq, Eq, Structural)]
pub struct DictEvent {
    /// The event type code.
    pub event_type: u8,
    /// The ordinal of the watched field within the class.
    pub fld_no: u16,
    /// Event flags.
    pub flags: u16,
}

impl DictEvent {
    /// Creates a zeroed event descriptor.
    pub fn new() -> (r: Self)
        ensures
            r == (DictEvent { event_type: 0u8, fld_no: 0u16, flags: 0u16 }),
    {
        DictEvent { event_type: 0, fld_no: 0, flags: 0 }
    }
}

/// An index descriptor: its owning class, uniqueness and covered fields.
pub struct DictIndex {
    /// The ordinal of the owning class.
    pub class_code: u16,
    /// Whether a key may appear at most once.
    pub unique: bool,
    /// The physical implementation carrying the entries.
    pub impl_kind: IndexImpl,
    /// The covered fields.
    pub fields: Vec<DictIndexField>,
    /// An estimate of the number of keys, for pre-sizing.
    pub numof_keys_estimate: u32,
}

impl DictIndex {
    /// Creates an index descriptor with no fields, carried by an
    /// in-memory ordered tree.
    pub fn new() -> (r: Self)
        ensures
            r.class_code == 0u16,
            r.unique == false,
            r.impl_kind == IndexImpl::BTreeInMem,
            r.fields@.len() == 0,
            r.numof_keys_estimate == 0u32,
    {
        DictIndex {
            class_code: 0,
            unique: false,
            impl_kind: IndexImpl::BTreeInMem,
            fields: Vec::new(),
            numof_keys_estimate: 0,
        }
    }
}

/// Per-class bookkeeping: index and event ranges and layout sizes.
#[derive(Clone, Copy, Debug, PartialEq, Eq, Structural)]
pub struct DictClassInfo {
    /// The first index ordinal of the class.
    pub first_index_num: i32,
    /// One past the last index ordinal of the class.
    pub last_index_num: i32,
    /// The ordinal of the list index.
    pub list_index_num: i32,
    /// The ordinal of the auto-identifier index.
    pub autoid_index_num: i32,
    /// The fixed size of instances.
    pub fixedsize: u32,
    /// The offset of the auto identifier.
    pub autoid_offset: u32,
    /// The first event ordinal of the class.
    pub first_event_num: i32,
    /// One past the last event ordinal of the class.
    pub last_event_num: i32,
    /// Class flags.
    pub flags: u16,
    /// The initial allocation size.
    pub init_size: u32,
}

impl DictClassInfo {
    /// Creates zeroed class information.
    pub fn zero() -> (r: Self)
        ensures
            r == (DictClassInfo {
                first_index_num: 0i32,
                last_index_num: 0i32,
                list_index_num: 0i32,
                autoid_index_num: 0i32,
                fixedsize: 0u32,
                autoid_offset: 0u32,
                first_event_num: 0i32,
                last_event_num: 0i32,
                flags: 0u16,
                init_size: 0u32,
            }),
    {
        DictClassInfo {
            first_index_num: 0,
            last_index_num: 0,
            list_index_num: 0,
            autoid_index_num: 0,
            fixedsize: 0,
            autoid_offset: 0,
            first_event_num: 0,
            last_event_num: 0,
            flags: 0,
            init_size: 0,
        }
    }
}

/// The dictionary space an added class reserves: a fixed class header
/// plus a fixed amount per field.
pub open spec fn class_cost(n_fields: nat) -> int {
    32 + 16 * (n_fields as int)
}

/// The schema catalog: classes and indexes, bounded by the reservations
/// made at database-open time.
pub struct Dictionary {
    /// The reserved number of classes.
    pub max_classes: usize,
    /// The reserved number of indexes.
    pub max_indexes: usize,
    /// The reserved dictionary space, in bytes.
    pub dict_size: usize,
    /// The dictionary space in use, in bytes.
    pub used_size: usize,
    /// The classes, by ordinal.
    pub classes: Vec<DictStruct>,
    /// The indexes, by ordinal.
    pub indexes: Vec<DictIndex>,
}

impl Dictionary {
    /// Well-formedness: reservations are respected, class names are
    /// unique, and every index's fields resolve to valid field ordinals of
    /// its owning class.
    pub open spec fn wf(self) -> bool {
        &&& self.classes@.len() <= self.max_classes
        &&& self.indexes@.len() <= self.max_indexes
        &&& self.used_size <= self.dict_size
        &&& (forall|i: int, j: int|
            0 <= i < j < self.classes@.len() ==> (#[trigger] self.classes@[i]).name@
                != (#[trigger] self.classes@[j]).name@)
        &&& (forall|x: int|
            0 <= x < self.indexes@.len() ==> (#[trigger] self.indexes@[x]).class_code
                < self.classes@.len())
        &&& (forall|x: int, f: int|
            0 <= x < self.indexes@.len() && 0 <= f < (#[trigger] self.indexes@[x]).fields@.len()
                ==> (#[trigger] self.indexes@[x].fields@[f]).fld_no < self.classes@[self.indexes@[x].class_code as int].fields@.len())
    }

    /// Creates an empty dictionary with the given reservations.
    pub fn new(max_classes: usize, max_indexes: usize, dict_size: usize) -> (r: Self)
        ensures
            r.max_classes == max_classes,
            r.max_indexes == max_indexes,
            r.dict_size == dict_size,
            r.used_size == 0,
            r.classes@.len() == 0,
            r.indexes@.len() == 0,
            r.wf(),
    {
        Dictionary {
            max_classes,
            max_indexes,
            dict_size,
            used_size: 0,
            classes: Vec::new(),
            indexes: Vec::new(),
        }
    }

    /// Resolves a class name to its ordinal: the first class carrying the
    /// name, or `None` if no class does.
    pub fn find_class(&self, name: &str) -> (r: Option<usize>)
        ensures
            (r matches Some(c) ==> c < self.classes@.len() && self.classes@[c as int].name@
                == name@ && (forall|d: int|
                0 <= d < c ==> (#[trigger] self.classes@[d]).name@ != name@)),
            (r is None ==> forall|d: int|
                0 <= d < self.classes@.len() ==> (#[trigger] self.classes@[d]).name@ != name@),
    {
        let key = name.to_owned();
        let n = self.classes.len();
        let mut c: usize = 0;
        while c < n
            invariant
                c <= n,
                n == self.classes@.len(),
                key@ == name@,
                forall|d: int| 0 <= d < c ==> (#[trigger] self.classes@[d]).name@ != name@,
            decreases n - c,
        {
            if self.classes[c].name.eq(&key) {
                return Some(c);
            }
            c = c + 1;
        }
        None
    }

    /// True if some class already carries `name`.
    pub open spec fn class_name_taken(self, name: Seq<char>) -> bool {
        exists|d: int| 0 <= d < self.classes@.len() && (#[trigger] self.classes@[d]).name@ == name
    }

    /// True if the reservations admit one more class with `n_fields`
    /// fields.
    pub open spec fn class_fits(self, n_fields: nat) -> bool {
        self.classes@.len() < self.max_classes && self.used_size + class_cost(n_fields)
            <= self.dict_size
    }

    /// Adds a class to the catalog and returns its ordinal.
    ///
    /// Fails with `IllegalParam` when the name is empty or already taken,
    /// and with `DictCapacityExceeded` exactly when the class reservation
    /// or the reserved dictionary space is spent. On failure the catalog
    /// is unchanged.
    pub fn add_class(&mut self, cls: DictStruct) -> (r: Result<usize, Error>)
        requires
            old(self).wf(),
        ensures
            final(self).wf(),
            (cls.name@.len() == 0 ==> r == Err::<usize, Error>(
                Error::Core(CoreError(CoreCode::IllegalParam)),
            ) && *final(self) == *old(self)),
            (cls.name@.len() > 0 && old(self).class_name_taken(cls.name@) ==> r == Err::<
                usize,
                Error,
            >(Error::Core(CoreError(CoreCode::IllegalParam))) && *final(self) == *old(self)),
            (cls.name@.len() > 0 && !old(self).class_name_taken(cls.name@) && !old(self).class_fits(cls.fields@.len()) ==> r == Err::<usize, Error>(
                Error::Core(CoreError(CoreCode::DictCapacityExceeded)),
            ) && *final(self) == *old(self)),
            (cls.name@.len() > 0 && !old(self).class_name_taken(cls.name@) && old(self).class_fits(
                cls.fields@.len(),
            ) ==> (r matches Ok(c) && c == old(self).classes@.len() && final(self).classes@ == old(self).classes@.push(cls) && final(self).indexes@ == old(self).indexes@ && final(self).used_size == old(self).used_size + class_cost(cls.fields@.len()) && final(self).max_classes == old(self).max_classes && final(self).max_indexes == old(self).max_indexes && final(self).dict_size == old(self).dict_size)),
    {
        if cls.name.as_str().is_empty() {
            return Err(Error::Core(CoreError(CoreCode::IllegalParam)));
        }
        if self.find_class(cls.name.as_str()).is_some() {
            return Err(Error::Core(CoreError(CoreCode::IllegalParam)));
        }
        proof {
            assert(!self.class_name_taken(cls.name@));
        }
        if self.classes.len() >= self.max_classes {
            return Err(Error::Core(CoreError(CoreCode::DictCapacityExceeded)));
        }
        let n = cls.fields.len();
        // The reservation check is phrased to avoid overflow: the cost is
        // only materialized once it is known to fit the reservation.
        if self.dict_size < 32 || n > (self.dict_size - 32) / 16 {
            return Err(Error::Core(CoreError(CoreCode::DictCapacityExceeded)));
        }
        let cost: usize = 32 + 16 * n;
        if self.used_size > self.dict_size - cost {
            return Err(Error::Core(CoreError(CoreCode::DictCapacityExceeded)));
        }
        let c = self.classes.len();
        self.used_size = self.used_size + cost;
        self.classes.push(cls);
        proof {
            assert forall|i: int, j: int|
                0 <= i < j < self.classes@.len() implies (#[trigger] self.classes@[i]).name@
                != (#[trigger] self.classes@[j]).name@ by {
                if j == c {
                    assert(self.classes@[i] == old(self).classes@[i]);
                }
            }
        }
        Ok(c)
    }

    /// True if `idx` resolves against the catalog: its class exists and
    /// every covered field ordinal is a field of that class.
    pub open spec fn index_resolves(self, idx: DictIndex) -> bool {
        &&& (idx.class_code as int) < self.classes@.len()
        &&& (forall|f: int|
            0 <= f < idx.fields@.len() ==> ((#[trigger] idx.fields@[f]).fld_no as int)
                < self.classes@[idx.class_code as int].fields@.len())
    }

    /// Adds an index to the catalog and returns its ordinal.
    ///
    /// Fails with `IllegalParam` when the owning class or any covered
    /// field ordinal does not resolve, and with `DictCapacityExceeded`
    /// exactly when the index reservation is spent. On failure the catalog
    /// is unchanged.
    pub fn add_index(&mut self, idx: DictIndex) -> (r: Result<usize, Error>)
        requires
            old(self).wf(),
        ensures
            final(self).wf(),
            (!old(self).index_resolves(idx) ==> r == Err::<usize, Error>(
                Error::Core(CoreError(CoreCode::IllegalParam)),
            ) && *final(self) == *old(self)),
            (old(self).index_resolves(idx) && old(self).indexes@.len() >= old(self).max_indexes
                ==> r == Err::<usize, Error>(
                Error::Core(CoreError(CoreCode::DictCapacityExceeded)),
            ) && *final(self) == *old(self)),
            (old(self).index_resolves(idx) && old(self).indexes@.len() < old(self).max_indexes
                ==> (r matches Ok(x) && x == old(self).indexes@.len() && final(self).indexes@
                == old(self).indexes@.push(idx) && final(self).classes@ == old(self).classes@
                && final(self).used_size == old(self).used_size)),
    {
        if (idx.class_code as usize) >= self.classes.len() {
            return Err(Error::Core(CoreError(CoreCode::IllegalParam)));
        }
        let n_fields = self.classes[idx.class_code as usize].fields.len();
        let nf = idx.fields.len();
        let mut f: usize = 0;
        while f < nf
            invariant
                f <= nf,
                nf == idx.fields@.len(),
                n_fields == self.classes@[idx.class_code as int].fields@.len(),
                (idx.class_code as int) < self.classes@.len(),
                *self == *old(self),
                old(self).wf(),
                forall|g: int| 0 <= g < f ==> (#[trigger] idx.fields@[g]).fld_no < n_fields,
            decreases nf - f,
        {
            if (idx.fields[f].fld_no as usize) >= n_fields {
                return Err(Error::Core(CoreError(CoreCode::IllegalParam)));
            }
            f = f + 1;
        }
        if self.indexes.len() >= self.max_indexes {
            return Err(Error::Core(CoreError(CoreCode::DictCapacityExceeded)));
        }
        let x = self.indexes.len();
        self.indexes.push(idx);
        Ok(x)
    }

    /// Takes a deep copy of the catalog: a snapshot whose observable
    /// state equals this catalog's.
    pub fn snapshot(&self) -> (r: Dictionary)
        ensures
            dict_eq(*self, r),
    {
        let mut classes: Vec<DictStruct> = Vec::new();
        let mut c: usize = 0;
        while c < self.classes.len()
            invariant
                c <= self.classes@.len(),
                classes@.len() == c,
                forall|d: int|
                    0 <= d < c ==> struct_eq(#[trigger] self.classes@[d], #[trigger] classes@[d]),
            decreases self.classes@.len() - c,
        {
            classes.push(copy_struct(&self.classes[c]));
            c = c + 1;
        }
        let mut indexes: Vec<DictIndex> = Vec::new();
        let mut x: usize = 0;
        while x < self.indexes.len()
            invariant
                x <= self.indexes@.len(),
                indexes@.len() == x,
                forall|d: int|
                    0 <= d < x ==> index_eq(#[trigger] self.indexes@[d], #[trigger] indexes@[d]),
            decreases self.indexes@.len() - x,
        {
            indexes.push(copy_index(&self.indexes[x]));
            x = x + 1;
        }
        Dictionary {
            max_classes: self.max_classes,
            max_indexes: self.max_indexes,
            dict_size: self.dict_size,
            used_size: self.used_size,
            classes,
            indexes,
        }
    }

    /// Returns the number of classes.
    pub fn n_classes(&self) -> (r: usize)
        ensures
            r == self.classes@.len(),
    {
        self.classes.len()
    }

    /// Returns the number of indexes.
    pub fn n_indexes(&self) -> (r: usize)
        ensures
            r == self.indexes@.len(),
    {
        self.indexes.len()
    }
}

/// Observable equality of fields: equal names and equal attributes.
pub open spec fn field_eq(a: DictField, b: DictField) -> bool {
    &&& a.name@ == b.name@
    &&& a.layout == b.layout
    &&& a.field_el_type == b.field_el_type
    &&& a.no == b.no
    &&& a.field_size == b.field_size
    &&& a.precision == b.precision
}

/// Observable equality of class descriptors.
pub open spec fn struct_eq(a: DictStruct, b: DictStruct) -> bool {
    &&& a.name@ == b.name@
    &&& a.flags == b.flags
    &&& a.fields@.len() == b.fields@.len()
    &&& (forall|i: int|
        0 <= i < a.fields@.len() ==> field_eq(#[trigger] a.fields@[i], #[trigger] b.fields@[i]))
    &&& a.events@ == b.events@
}

/// Observable equality of index descriptors.
pub open spec fn index_eq(a: DictIndex, b: DictIndex) -> bool {
    &&& a.class_code == b.class_code
    &&& a.unique == b.unique
    &&& a.impl_kind == b.impl_kind
    &&& a.fields@ == b.fields@
    &&& a.numof_keys_estimate == b.numof_keys_estimate
}

/// Observable equality of whole catalogs.
pub open spec fn dict_eq(a: Dictionary, b: Dictionary) -> bool {
    &&& a.max_classes == b.max_classes
    &&& a.max_indexes == b.max_indexes
    &&& a.dict_size == b.dict_size
    &&& a.used_size == b.used_size
    &&& a.classes@.len() == b.classes@.len()
    &&& (forall|c: int|
        0 <= c < a.classes@.len() ==> struct_eq(#[trigger] a.classes@[c], #[trigger] b.classes@[c]))
    &&& a.indexes@.len() == b.indexes@.len()
    &&& (forall|x: int|
        0 <= x < a.indexes@.len() ==> index_eq(#[trigger] a.indexes@[x], #[trigger] b.indexes@[x]))
}

/// Well-formedness carries over observable equality of catalogs.
pub proof fn lemma_dict_eq_wf(a: Dictionary, b: Dictionary)
    requires
        dict_eq(a, b),
        a.wf(),
    ensures
        b.wf(),
{
    assert forall|i: int, j: int|
        0 <= i < j < b.classes@.len() implies (#[trigger] b.classes@[i]).name@
        != (#[trigger] b.classes@[j]).name@ by {
        assert(struct_eq(a.classes@[i], b.classes@[i]));
        assert(struct_eq(a.classes@[j], b.classes@[j]));
    }
    assert forall|x: int|
        0 <= x < b.indexes@.len() implies (#[trigger] b.indexes@[x]).class_code
        < b.classes@.len() by {
        assert(index_eq(a.indexes@[x], b.indexes@[x]));
    }
    assert forall|x: int, f: int|
        0 <= x < b.indexes@.len() && 0 <= f < (#[trigger] b.indexes@[x]).fields@.len() implies (
    #[trigger] b.indexes@[x].fields@[f]).fld_no
        < b.classes@[b.indexes@[x].class_code as int].fields@.len() by {
        assert(index_eq(a.indexes@[x], b.indexes@[x]));
        assert(struct_eq(
            a.classes@[a.indexes@[x].class_code as int],
            b.classes@[b.indexes@[x].class_code as int],
        ));
    }
}

/// Copies a field descriptor, preserving its observable state.
fn copy_field(f: &DictField) -> (r: DictField)
    ensures
        field_eq(*f, r),
{
    DictField {
        name: f.name.clone(),
        layout: f.layout,
        field_el_type: f.field_el_type,
        no: f.no,
        field_size: f.field_size,
        precision: f.precision,
    }
}

/// Copies a class descriptor, preserving its observable state.
fn copy_struct(cls: &DictStruct) -> (r: DictStruct)
    ensures
        struct_eq(*cls, r),
{
    let mut fields: Vec<DictField> = Vec::new();
    let mut i: usize = 0;
    while i < cls.fields.len()
        invariant
            i <= cls.fields@.len(),
            fields@.len() == i,
            forall|j: int|
                0 <= j < i ==> field_eq(#[trigger] cls.fields@[j], #[trigger] fields@[j]),
        decreases cls.fields@.len() - i,
    {
        fields.push(copy_field(&cls.fields[i]));
        i = i + 1;
    }
    let mut events: Vec<DictEvent> = Vec::new();
    let mut e: usize = 0;
    while e < cls.events.len()
        invariant
            e <= cls.events@.len(),
            events@.len() == e,
            forall|j: int| 0 <= j < e ==> #[trigger] events@[j] == cls.events@[j],
        decreases cls.events@.len() - e,
    {
        events.push(cls.events[e]);
        e = e + 1;
    }
    proof {
        assert(events@ =~= cls.events@);
    }
    DictStruct { name: cls.name.clone(), flags: cls.flags, fields, events }
}

/// Copies an index descriptor, preserving its observable state.
fn copy_index(idx: &DictIndex) -> (r: DictIndex)
    ensures
        index_eq(*idx, r),
{
    let mut fields: Vec<DictIndexField> = Vec::new();
    let mut i: usize = 0;
    while i < idx.fields.len()
        invariant
            i <= idx.fields@.len(),
            fields@.len() == i,
            forall|j: int| 0 <= j < i ==> #[trigger] fields@[j] == idx.fields@[j],
        decreases idx.fields@.len() - i,
    {
        fields.push(idx.fields[i]);
        i = i + 1;
    }
    proof {
        assert(fields@ =~= idx.fields@);
    }
    DictIndex {
        class_code: idx.class_code,
        unique: idx.unique,
        impl_kind: idx.impl_kind,
        fields,
        numof_keys_estimate: idx.numof_keys_estimate,
    }
}

} // verus!
