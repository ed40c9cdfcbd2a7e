//! Heap object layouts, built directly on the value encoding.
//!
//! Heap objects live in an arena addressed by stable indices; a value
//! whose tag selects a heap kind carries such an index in its pointer
//! bits.  Pairs and vector slots are shared mutable state: mutating one
//! changes what every alias of the object subsequently observes.  The
//! explicit value stack is the collector's root region; any value held
//! elsewhere must be treated as invalid across an allocation.

use vstd::prelude::*;

use crate::bytecode::{bco_header_word, BCO};
use crate::value::{SchemeError, Tags, Value, PAIR_HEADER, PAIR_TAG, SIZEOF_PAIR, VECTOR_TAG};

verus! {

/// A mutable Scheme pair: a header word and the two value slots.
#[derive(Debug, Copy, Clone)]
pub struct Pair {
    pub header: u64,
    pub car: Value,
    pub cdr: Value,
}

/// A Scheme vector-like thing: vectors, records, and closures all
/// consist of a header followed by a sequence of value slots.
///
/// The three most significant bits of the header select the sub-kind
/// (plain vector `0b000`, record `0b001`, closure `0b010`, the rest
/// reserved); the remaining bits hold the slot count.  A record's slot 0
/// holds its record descriptor; a closure's slot 0 references a bytecode
/// object.  The distinction is in the interpretation of slot 0 only: the
/// allocation's extent, and with it the indexing bound, is uniform.
#[derive(Debug)]
pub struct Vector {
    pub header: u64,
    pub data: Vec<Value>,
}

/// A descriptor identifying a record type: a heap-independent
/// identifier, always a nonzero multiple of eight.
#[derive(Debug, Copy, Clone)]
pub struct RecordDescriptor {
    pub id: u64,
}

/// One object of the heap arena.
#[derive(Debug)]
pub enum HeapObject {
    Pair(Pair),
    Vector(Vector),
    Bytecode(BCO),
}

/// The mathematical shape of one heap object.
pub enum ObjView {
    Pair { header: u64, car: Value, cdr: Value },
    Vector { header: u64, data: Seq<Value> },
    Bytecode { header: u64, bytecode_length: usize, code: Seq<u8>, constants: Value },
}

impl View for HeapObject {
    type V = ObjView;

    open spec fn view(&self) -> ObjView {
        match self {
            HeapObject::Pair(p) => ObjView::Pair { header: p.header, car: p.car, cdr: p.cdr },
            HeapObject::Vector(v) => ObjView::Vector { header: v.header, data: v.data@ },
            HeapObject::Bytecode(b) => ObjView::Bytecode {
                header: b.header,
                bytecode_length: b.bytecode_length,
                code: b.code@,
                constants: b.constants_vector,
            },
        }
    }
}

/// The mathematical shape of the whole heap: the object arena and the
/// value stack that doubles as the collector's root region.
pub struct HeapView {
    pub objects: Seq<ObjView>,
    pub stack: Seq<Value>,
}

/// The managed heap: the object arena and the explicit value stack.
#[derive(Debug)]
pub struct Heap {
    pub objects: Vec<HeapObject>,
    pub stack: Vec<Value>,
}

impl View for Heap {
    type V = HeapView;

    open spec fn view(&self) -> HeapView {
        HeapView {
            objects: Seq::new(self.objects@.len(), |i: int| self.objects@[i]@),
            stack: self.stack@,
        }
    }
}

/// The vector-family header for a given sub-kind and slot count: the
/// sub-kind in the three most significant bits, the count below.
pub open spec fn vector_header_word(subkind: u64, count: int) -> u64 {
    (subkind * 0x2000_0000_0000_0000 + count) as u64
}

impl Value {
    /// Tag-consistency: a value's tag bits must match the kind of
    /// object its pointer bits address.  Kinds without heap objects in
    /// this core constrain nothing.
    pub open spec fn valid(&self, h: HeapView) -> bool {
        if self.spec_tag() == Tags::Pair {
            0 <= self.spec_ptr() < h.objects.len() && h.objects[self.spec_ptr()] is Pair
        } else if self.spec_tag() == Tags::Vector {
            0 <= self.spec_ptr() < h.objects.len() && h.objects[self.spec_ptr()] is Vector
        } else if self.spec_tag() == Tags::RustData {
            0 <= self.spec_ptr() < h.objects.len() && h.objects[self.spec_ptr()] is Bytecode
        } else {
            true
        }
    }

    /// Returns the car of the pair this value references; any other
    /// kind is rejected with `WrongType`.
    pub fn car(&self, heap: &Heap) -> (r: Result<Value, SchemeError>)
        requires
            heap@.wf(),
            self.valid(heap@),
        ensures
            self.spec_tag() == Tags::Pair ==> (r matches Ok(v) && v == heap@.car_of(*self)
                && v.valid(heap@)),
            self.spec_tag() != Tags::Pair ==> r == Err::<Value, SchemeError>(
                SchemeError::WrongType,
            ),
    {
        if self.pairp() {
            let n: usize = heap.objects.len();
            proof {
                assert(0 <= self.spec_ptr() < n);
                assert(heap@.obj_wf(heap@.objects[self.spec_ptr()]));
            }
            let idx: usize = (self.contents / 8) as usize;
            match &heap.objects[idx] {
                HeapObject::Pair(p) => Ok(p.car),
                _ => unreached(),
            }
        } else {
            Err(SchemeError::WrongType)
        }
    }

    /// Returns the cdr of the pair this value references; any other
    /// kind is rejected with `WrongType`.
    pub fn cdr(&self, heap: &Heap) -> (r: Result<Value, SchemeError>)
        requires
            heap@.wf(),
            self.valid(heap@),
        ensures
            self.spec_tag() == Tags::Pair ==> (r matches Ok(v) && v == heap@.cdr_of(*self)
                && v.valid(heap@)),
            self.spec_tag() != Tags::Pair ==> r == Err::<Value, SchemeError>(
                SchemeError::WrongType,
            ),
    {
        if self.pairp() {
            let n: usize = heap.objects.len();
            proof {
                assert(0 <= self.spec_ptr() < n);
                assert(heap@.obj_wf(heap@.objects[self.spec_ptr()]));
            }
            let idx: usize = (self.contents / 8) as usize;
            match &heap.objects[idx] {
                HeapObject::Pair(p) => Ok(p.cdr),
                _ => unreached(),
            }
        } else {
            Err(SchemeError::WrongType)
        }
    }

    /// Replaces the car of the pair this value references.  Pairs are
    /// shared mutable state: every other value referencing the same
    /// pair observes the change.  Any other kind is rejected with
    /// `WrongType` and the heap is untouched.
    pub fn set_car(&self, heap: &mut Heap, other: Value) -> (r: Result<(), SchemeError>)
        requires
            old(heap)@.wf(),
            self.valid(old(heap)@),
            other.valid(old(heap)@),
        ensures
            final(heap)@.wf(),
            self.spec_tag() == Tags::Pair ==> (r == Ok::<(), SchemeError>(())
                && final(heap)@.objects == old(heap)@.objects.update(
                self.spec_ptr(),
                ObjView::Pair {
                    header: PAIR_HEADER,
                    car: other,
                    cdr: old(heap)@.cdr_of(*self),
                },
            ) && final(heap)@.stack == old(heap)@.stack),
            self.spec_tag() != Tags::Pair ==> (r == Err::<(), SchemeError>(SchemeError::WrongType)
                && *final(heap) == *old(heap)),
    {
        if self.pairp() {
            let n: usize = heap.objects.len();
            proof {
                assert(0 <= self.spec_ptr() < n);
                assert(old(heap)@.obj_wf(old(heap)@.objects[self.spec_ptr()]));
            }
            let idx: usize = (self.contents / 8) as usize;
            let p: Pair = match &heap.objects[idx] {
                HeapObject::Pair(p) => *p,
                _ => unreached(),
            };
            let ghost o = ObjView::Pair { header: p.header, car: other, cdr: p.cdr };
            heap.objects[idx] = HeapObject::Pair(Pair { header: p.header, car: other, cdr: p.cdr });
            proof {
                let h = old(heap)@;
                let h2 = heap@;
                assert(h2.objects =~= h.objects.update(idx as int, o));
                assert(h2.stack =~= h.stack);
                lemma_wf_update(h, h2, idx as int, o);
            }
            Ok(())
        } else {
            Err(SchemeError::WrongType)
        }
    }

    /// Replaces the cdr of the pair this value references; as
    /// `set_car`.
    pub fn set_cdr(&self, heap: &mut Heap, other: Value) -> (r: Result<(), SchemeError>)
        requires
            old(heap)@.wf(),
            self.valid(old(heap)@),
            other.valid(old(heap)@),
        ensures
            final(heap)@.wf(),
            self.spec_tag() == Tags::Pair ==> (r == Ok::<(), SchemeError>(())
                && final(heap)@.objects == old(heap)@.objects.update(
                self.spec_ptr(),
                ObjView::Pair {
                    header: PAIR_HEADER,
                    car: old(heap)@.car_of(*self),
                    cdr: other,
                },
            ) && final(heap)@.stack == old(heap)@.stack),
            self.spec_tag() != Tags::Pair ==> (r == Err::<(), SchemeError>(SchemeError::WrongType)
                && *final(heap) == *old(heap)),
    {
        if self.pairp() {
            let n: usize = heap.objects.len();
            proof {
                assert(0 <= self.spec_ptr() < n);
                assert(old(heap)@.obj_wf(old(heap)@.objects[self.spec_ptr()]));
            }
            let idx: usize = (self.contents / 8) as usize;
            let p: Pair = match &heap.objects[idx] {
                HeapObject::Pair(p) => *p,
                _ => unreached(),
            };
            let ghost o = ObjView::Pair { header: p.header, car: p.car, cdr: other };
            heap.objects[idx] = HeapObject::Pair(Pair { header: p.header, car: p.car, cdr: other });
            proof {
                let h = old(heap)@;
                let h2 = heap@;
                assert(h2.objects =~= h.objects.update(idx as int, o));
                assert(h2.stack =~= h.stack);
                lemma_wf_update(h, h2, idx as int, o);
            }
            Ok(())
        } else {
            Err(SchemeError::WrongType)
        }
    }

    /// Reads slot `index` of the vector-family object this value
    /// references.  Succeeds exactly when the index is below the
    /// object's recorded length; the sub-kind is not special-cased, as
    /// the bound is the allocation's extent for all three sub-kinds.
    pub fn array_get(&self, heap: &Heap, index: usize) -> (r: Result<Value, SchemeError>)
        requires
            heap@.wf(),
            self.valid(heap@),
        ensures
            self.spec_tag() != Tags::Vector ==> r == Err::<Value, SchemeError>(
                SchemeError::WrongType,
            ),
            self.spec_tag() == Tags::Vector && index >= heap@.length_of(*self) ==> r == Err::<
                Value,
                SchemeError,
            >(SchemeError::IndexOutOfRange),
            self.spec_tag() == Tags::Vector && index < heap@.length_of(*self) ==> (r matches Ok(v)
                && v == heap@.slots_of(*self)[index as int] && v.valid(heap@)),
    {
        let t = self.tag();
        if t == Tags::Vector {
            let n: usize = heap.objects.len();
            proof {
                assert(0 <= self.spec_ptr() < n);
                assert(heap@.obj_wf(heap@.objects[self.spec_ptr()]));
            }
            let idx: usize = (self.contents / 8) as usize;
            match &heap.objects[idx] {
                HeapObject::Vector(vector) => {
                    if index < vector.data.len() {
                        Ok(vector.data[index])
                    } else {
                        Err(SchemeError::IndexOutOfRange)
                    }
                },
                _ => unreached(),
            }
        } else {
            Err(SchemeError::WrongType)
        }
    }

    /// Stores `other` into slot `index` of the vector-family object
    /// this value references; bounds as `array_get`.  On failure the
    /// heap is untouched.
    pub fn array_set(&self, heap: &mut Heap, index: usize, other: Value) -> (r: Result<
        (),
        SchemeError,
    >)
        requires
            old(heap)@.wf(),
            self.valid(old(heap)@),
            other.valid(old(heap)@),
        ensures
            final(heap)@.wf(),
            self.spec_tag() != Tags::Vector ==> (r == Err::<(), SchemeError>(SchemeError::WrongType)
                && final(heap)@ == old(heap)@),
            self.spec_tag() == Tags::Vector && index >= old(heap)@.length_of(*self) ==> (r == Err::<
                (),
                SchemeError,
            >(SchemeError::IndexOutOfRange) && final(heap)@ == old(heap)@),
            self.spec_tag() == Tags::Vector && index < old(heap)@.length_of(*self) ==> (r == Ok::<
                (),
                SchemeError,
            >(()) && final(heap)@.objects == old(heap)@.objects.update(
                self.spec_ptr(),
                ObjView::Vector {
                    header: old(heap)@.header_of(*self),
                    data: old(heap)@.slots_of(*self).update(index as int, other),
                },
            ) && final(heap)@.stack == old(heap)@.stack),
    {
        let t = self.tag();
        if t == Tags::Vector {
            let n: usize = heap.objects.len();
            proof {
                assert(0 <= self.spec_ptr() < n);
                assert(old(heap)@.obj_wf(old(heap)@.objects[self.spec_ptr()]));
                assert(heap.objects@[self.spec_ptr()] is Vector);
            }
            let idx: usize = (self.contents / 8) as usize;
            let ghost h = old(heap)@;
            let mut result: Result<(), SchemeError> = Ok(());
            match &mut heap.objects[idx] {
                HeapObject::Vector(vector) => {
                    if index < vector.data.len() {
                        vector.data[index] = other;
                    } else {
                        result = Err(SchemeError::IndexOutOfRange);
                    }
                },
                _ => {
                    proof {
                        assert(false);
                    }
                },
            }
            proof {
                let h2 = heap@;
                if index < h.length_of(*self) {
                    let o = ObjView::Vector {
                        header: h.header_of(*self),
                        data: h.slots_of(*self).update(index as int, other),
                    };
                    assert(h2.objects =~= h.objects.update(idx as int, o));
                    assert(h2.stack =~= h.stack);
                    assert(h.obj_wf(o)) by {
                        assert forall|i: int|
                            0 <= i < o->Vector_data.len() implies (#[trigger] o->Vector_data[i]).valid(
                            h,
                        ) by {
                            if i != index {
                                assert(o->Vector_data[i] == h.slots_of(*self)[i]);
                            }
                        };
                    };
                    lemma_wf_update(h, h2, idx as int, o);
                } else {
                    assert(h2.objects =~= h.objects);
                    assert(h2.stack =~= h.stack);
                }
            }
            result
        } else {
            Err(SchemeError::WrongType)
        }
    }

    /// The size field of the header of the heap object this value
    /// references: the slot count for a vector-family object, the size
    /// in words for a pair or a bytecode object.  Fixnums have no heap
    /// object and yield nothing.
    pub fn size(&self, heap: &Heap) -> (r: Option<u64>)
        requires
            heap@.wf(),
            self.valid(heap@),
            self.spec_is_fixnum() || self.spec_tag() == Tags::Pair || self.spec_tag()
                == Tags::Vector || self.spec_tag() == Tags::RustData,
        ensures
            self.spec_is_fixnum() ==> r is None,
            !self.spec_is_fixnum() ==> r == Some(
                (heap@.header_of(*self) % 0x2000_0000_0000_0000) as u64,
            ),
            self.spec_tag() == Tags::Vector ==> (r matches Some(c) && c == heap@.length_of(
                *self,
            )),
            self.spec_tag() == Tags::Pair ==> r == Some(SIZEOF_PAIR),
    {
        if self.fixnump() {
            None
        } else {
            let n: usize = heap.objects.len();
            proof {
                assert(0 <= self.spec_ptr() < n);
                assert(heap@.obj_wf(heap@.objects[self.spec_ptr()]));
            }
            let idx: usize = (self.contents / 8) as usize;
            let header: u64 = match &heap.objects[idx] {
                HeapObject::Pair(p) => p.header,
                HeapObject::Vector(v) => v.header,
                HeapObject::Bytecode(b) => b.header,
            };
            Some(header % 0x2000_0000_0000_0000)
        }
    }
}

impl HeapView {
    /// The car slot of the pair a value addresses.
    pub open spec fn car_of(&self, v: Value) -> Value {
        self.objects[v.spec_ptr()]->Pair_car
    }

    /// The cdr slot of the pair a value addresses.
    pub open spec fn cdr_of(&self, v: Value) -> Value {
        self.objects[v.spec_ptr()]->Pair_cdr
    }

    /// The slots of the vector-family object a value addresses.
    pub open spec fn slots_of(&self, v: Value) -> Seq<Value> {
        self.objects[v.spec_ptr()]->Vector_data
    }

    /// The recorded length of the vector-family object a value
    /// addresses.
    pub open spec fn length_of(&self, v: Value) -> int {
        self.slots_of(v).len() as int
    }

    /// The header word of the object a value addresses.
    pub open spec fn header_of(&self, v: Value) -> u64 {
        match self.objects[v.spec_ptr()] {
            ObjView::Pair { header, .. } => header,
            ObjView::Vector { header, .. } => header,
            ObjView::Bytecode { header, .. } => header,
        }
    }

    /// Well-formedness of one object: its header agrees with its
    /// contents and every value it holds is tag-consistent.
    pub open spec fn obj_wf(&self, o: ObjView) -> bool {
        match o {
            ObjView::Pair { header, car, cdr } => {
                &&& header == PAIR_HEADER
                &&& car.valid(*self)
                &&& cdr.valid(*self)
            },
            ObjView::Vector { header, data } => {
                &&& data.len() < 0x2000_0000_0000_0000
                &&& header % 0x2000_0000_0000_0000 == data.len()
                &&& forall|i: int| 0 <= i < data.len() ==> (#[trigger] data[i]).valid(*self)
            },
            ObjView::Bytecode { header, bytecode_length, code, constants } => {
                &&& bytecode_length == code.len()
                &&& header == bco_header_word(code.len() as int)
                &&& constants.valid(*self)
            },
        }
    }

    /// Well-formedness of the heap: every object is well formed and
    /// every rooted value on the stack is tag-consistent.
    pub open spec fn wf(&self) -> bool {
        &&& forall|i: int|
            0 <= i < self.objects.len() ==> self.obj_wf(#[trigger] self.objects[i])
        &&& forall|i: int| 0 <= i < self.stack.len() ==> (#[trigger] self.stack[i]).valid(*self)
    }
}

/// Whether two heap object shapes are of the same kind; validity of a
/// value depends only on the kinds of the objects its heap holds.
pub open spec fn same_kind(a: ObjView, b: ObjView) -> bool {
    &&& a is Pair <==> b is Pair
    &&& a is Vector <==> b is Vector
    &&& a is Bytecode <==> b is Bytecode
}

/// A value valid in a heap stays valid when the arena grows or when
/// objects are replaced by objects of the same kind.
pub proof fn lemma_valid_preserved(v: Value, h: HeapView, h2: HeapView)
    requires
        v.valid(h),
        h.objects.len() <= h2.objects.len(),
        forall|i: int|
            0 <= i < h.objects.len() ==> same_kind(h.objects[i], #[trigger] h2.objects[i]),
    ensures
        v.valid(h2),
{
}

/// A well-formed object stays well formed when the arena grows or when
/// objects are replaced by objects of the same kind.
pub proof fn lemma_obj_wf_preserved(o: ObjView, h: HeapView, h2: HeapView)
    requires
        h.obj_wf(o),
        h.objects.len() <= h2.objects.len(),
        forall|i: int|
            0 <= i < h.objects.len() ==> same_kind(h.objects[i], #[trigger] h2.objects[i]),
    ensures
        h2.obj_wf(o),
{
    match o {
        ObjView::Pair { header, car, cdr } => {
            lemma_valid_preserved(car, h, h2);
            lemma_valid_preserved(cdr, h, h2);
        },
        ObjView::Vector { header, data } => {
            assert forall|i: int| 0 <= i < data.len() implies (#[trigger] data[i]).valid(h2) by {
                lemma_valid_preserved(data[i], h, h2);
            };
        },
        ObjView::Bytecode { header, bytecode_length, code, constants } => {
            lemma_valid_preserved(constants, h, h2);
        },
    }
}

/// Appending a well-formed object to a well-formed heap keeps the heap
/// well formed.
pub proof fn lemma_wf_push(h: HeapView, h2: HeapView, o: ObjView)
    requires
        h.wf(),
        h.obj_wf(o),
        h2.objects == h.objects.push(o),
        h2.stack == h.stack,
    ensures
        h2.wf(),
{
    assert forall|i: int|
        0 <= i < h2.objects.len() implies h2.obj_wf(#[trigger] h2.objects[i]) by {
        if i < h.objects.len() {
            lemma_obj_wf_preserved(h.objects[i], h, h2);
        } else {
            lemma_obj_wf_preserved(o, h, h2);
        }
    };
    assert forall|i: int| 0 <= i < h2.stack.len() implies (#[trigger] h2.stack[i]).valid(h2) by {
        lemma_valid_preserved(h.stack[i], h, h2);
    };
}

/// Replacing one object by a well-formed object of the same kind keeps
/// the heap well formed.
pub proof fn lemma_wf_update(h: HeapView, h2: HeapView, k: int, o: ObjView)
    requires
        h.wf(),
        0 <= k < h.objects.len(),
        same_kind(h.objects[k], o),
        h.obj_wf(o),
        h2.objects == h.objects.update(k, o),
        h2.stack == h.stack,
    ensures
        h2.wf(),
{
    assert forall|i: int|
        0 <= i < h2.objects.len() implies h2.obj_wf(#[trigger] h2.objects[i]) by {
        if i == k {
            lemma_obj_wf_preserved(o, h, h2);
        } else {
            lemma_obj_wf_preserved(h.objects[i], h, h2);
        }
    };
    assert forall|i: int| 0 <= i < h2.stack.len() implies (#[trigger] h2.stack[i]).valid(h2) by {
        lemma_valid_preserved(h.stack[i], h, h2);
    };
}

impl Heap {
    /// An empty heap: no objects, no roots.
    pub fn new() -> (h: Heap)
        ensures
            h@.wf(),
            h@.objects.len() == 0,
            h@.stack.len() == 0,
    {
        Heap { objects: Vec::new(), stack: Vec::new() }
    }

    /// Allocates a pair with the given car and cdr and returns a
    /// pair-tagged reference to it.
    pub fn alloc_pair(&mut self, car: Value, cdr: Value) -> (v: Value)
        requires
            old(self)@.wf(),
            car.valid(old(self)@),
            cdr.valid(old(self)@),
            old(self)@.objects.len() < 0x2000_0000_0000_0000,
        ensures
            final(self)@.wf(),
            final(self)@.objects == old(self)@.objects.push(
                ObjView::Pair { header: PAIR_HEADER, car, cdr },
            ),
            final(self)@.stack == old(self)@.stack,
            v.spec_tag() == Tags::Pair,
            v.valid(final(self)@),
            v.spec_ptr() == old(self)@.objects.len(),
            final(self)@.car_of(v) == car,
            final(self)@.cdr_of(v) == cdr,
    {
        let idx: usize = self.objects.len();
        self.objects.push(HeapObject::Pair(Pair { header: PAIR_HEADER, car, cdr }));
        let v = Value::new((idx as u64) * 8 + PAIR_TAG);
        proof {
            let h = old(self)@;
            let h2 = self@;
            assert(h2.objects =~= h.objects.push(ObjView::Pair { header: PAIR_HEADER, car, cdr }));
            lemma_wf_push(h, h2, ObjView::Pair { header: PAIR_HEADER, car, cdr });
        }
        v
    }

    /// Allocates a vector-family object of the given sub-kind holding
    /// the given slots and returns a vector-tagged reference to it.
    pub fn alloc_vector_family(&mut self, subkind: u64, slots: Vec<Value>) -> (v: Value)
        requires
            old(self)@.wf(),
            subkind < 8,
            slots@.len() < 0x2000_0000_0000_0000,
            forall|i: int| 0 <= i < slots@.len() ==> (#[trigger] slots@[i]).valid(old(self)@),
            old(self)@.objects.len() < 0x2000_0000_0000_0000,
        ensures
            final(self)@.wf(),
            final(self)@.objects == old(self)@.objects.push(
                ObjView::Vector {
                    header: vector_header_word(subkind, slots@.len() as int),
                    data: slots@,
                },
            ),
            final(self)@.stack == old(self)@.stack,
            v.spec_tag() == Tags::Vector,
            v.valid(final(self)@),
            v.spec_ptr() == old(self)@.objects.len(),
            final(self)@.slots_of(v) == slots@,
    {
        let idx: usize = self.objects.len();
        let count: u64 = slots.len() as u64;
        let header: u64 = subkind * 0x2000_0000_0000_0000 + count;
        let ghost o = ObjView::Vector { header, data: slots@ };
        self.objects.push(HeapObject::Vector(Vector { header, data: slots }));
        let v = Value::new((idx as u64) * 8 + VECTOR_TAG);
        proof {
            let h = old(self)@;
            let h2 = self@;
            assert(h2.objects =~= h.objects.push(o));
            lemma_wf_push(h, h2, o);
        }
        v
    }

    /// Allocates a plain vector (sub-kind zero) holding the given
    /// slots.
    pub fn alloc_vector(&mut self, slots: Vec<Value>) -> (v: Value)
        requires
            old(self)@.wf(),
            slots@.len() < 0x2000_0000_0000_0000,
            forall|i: int| 0 <= i < slots@.len() ==> (#[trigger] slots@[i]).valid(old(self)@),
            old(self)@.objects.len() < 0x2000_0000_0000_0000,
        ensures
            final(self)@.wf(),
            final(self)@.objects == old(self)@.objects.push(
                ObjView::Vector { header: vector_header_word(0, slots@.len() as int), data: slots@ },
            ),
            final(self)@.stack == old(self)@.stack,
            v.spec_tag() == Tags::Vector,
            v.valid(final(self)@),
            v.spec_ptr() == old(self)@.objects.len(),
            final(self)@.slots_of(v) == slots@,
    {
        self.alloc_vector_family(0, slots)
    }

    /// Pushes a value onto the root stack.
    pub fn push_root(&mut self, v: Value)
        requires
            old(self)@.wf(),
            v.valid(old(self)@),
        ensures
            final(self)@.wf(),
            final(self)@.objects == old(self)@.objects,
            final(self)@.stack == old(self)@.stack.push(v),
    {
        self.stack.push(v);
        proof {
            let h = old(self)@;
            let h2 = self@;
            assert(h2.objects =~= h.objects);
            assert forall|i: int|
                0 <= i < h2.objects.len() implies h2.obj_wf(#[trigger] h2.objects[i]) by {
                lemma_obj_wf_preserved(h.objects[i], h, h2);
            };
            assert forall|i: int|
                0 <= i < h2.stack.len() implies (#[trigger] h2.stack[i]).valid(h2) by {
                if i < h.stack.len() {
                    lemma_valid_preserved(h.stack[i], h, h2);
                } else {
                    lemma_valid_preserved(v, h, h2);
                }
            };
        }
    }

    /// Pops the top of the root stack, if any.
    pub fn pop_root(&mut self) -> (r: Option<Value>)
        requires
            old(self)@.wf(),
        ensures
            final(self)@.wf(),
            final(self)@.objects == old(self)@.objects,
            old(self)@.stack.len() == 0 ==> r is None && final(self)@.stack == old(self)@.stack,
            old(self)@.stack.len() > 0 ==> (r matches Some(v) && v == old(self)@.stack.last()
                && v.valid(final(self)@) && final(self)@.stack == old(self)@.stack.drop_last()),
    {
        let r = self.stack.pop();
        proof {
            let h = old(self)@;
            let h2 = self@;
            assert(h2.objects =~= h.objects);
            if h.stack.len() > 0 {
                assert(h2.stack =~= h.stack.drop_last());
            }
            assert forall|i: int|
                0 <= i < h2.objects.len() implies h2.obj_wf(#[trigger] h2.objects[i]) by {
                lemma_obj_wf_preserved(h.objects[i], h, h2);
            };
            assert forall|i: int|
                0 <= i < h2.stack.len() implies (#[trigger] h2.stack[i]).valid(h2) by {
                lemma_valid_preserved(h.stack[i], h, h2);
            };
            if h.stack.len() > 0 {
                lemma_valid_preserved(h.stack.last(), h, h2);
            }
        }
        r
    }
}

} // verus!
