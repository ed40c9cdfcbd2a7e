use rusty_scheme::heap::{Heap, HeapObject};
use rusty_scheme::value::{SchemeError, Tags, Value, HEADER_TAG, PAIR_HEADER};

#[test]
fn fresh_pair_reads_back_car_and_cdr() {
    let mut heap = Heap::new();
    let a = Value::fixnum(1);
    let b = Value::fixnum(2);
    let p = heap.alloc_pair(a, b);
    assert_eq!(p.tag(), Tags::Pair);
    assert_eq!(p.car(&heap), Ok(a));
    assert_eq!(p.cdr(&heap), Ok(b));
}

#[test]
fn set_car_changes_car_and_keeps_cdr() {
    let mut heap = Heap::new();
    let a = Value::fixnum(1);
    let b = Value::fixnum(2);
    let c = Value::fixnum(3);
    let p = heap.alloc_pair(a, b);
    assert_eq!(p.set_car(&mut heap, c), Ok(()));
    assert_eq!(p.car(&heap), Ok(c));
    assert_eq!(p.cdr(&heap), Ok(b));
}

#[test]
fn set_cdr_changes_cdr_and_keeps_car() {
    let mut heap = Heap::new();
    let a = Value::fixnum(1);
    let b = Value::fixnum(2);
    let d = Value::fixnum(4);
    let p = heap.alloc_pair(a, b);
    assert_eq!(p.set_cdr(&mut heap, d), Ok(()));
    assert_eq!(p.car(&heap), Ok(a));
    assert_eq!(p.cdr(&heap), Ok(d));
}

#[test]
fn mutation_is_observed_through_every_alias() {
    let mut heap = Heap::new();
    let p = heap.alloc_pair(Value::fixnum(1), Value::fixnum(2));
    let alias = p;
    assert_eq!(p.set_car(&mut heap, Value::fixnum(9)), Ok(()));
    assert_eq!(alias.car(&heap), Ok(Value::fixnum(9)));
}

#[test]
fn pair_accessors_reject_non_pairs() {
    let mut heap = Heap::new();
    let f = Value::fixnum(5);
    assert_eq!(f.car(&heap), Err(SchemeError::WrongType));
    assert_eq!(f.cdr(&heap), Err(SchemeError::WrongType));
    assert_eq!(f.set_car(&mut heap, f), Err(SchemeError::WrongType));
    assert_eq!(f.set_cdr(&mut heap, f), Err(SchemeError::WrongType));
    let v = heap.alloc_vector(vec![f]);
    assert_eq!(v.car(&heap), Err(SchemeError::WrongType));
}

#[test]
fn vector_indexing_in_bounds_and_out() {
    let mut heap = Heap::new();
    let slots = vec![Value::fixnum(10), Value::fixnum(20), Value::fixnum(30)];
    let v = heap.alloc_vector(slots);
    assert_eq!(v.tag(), Tags::Vector);
    for i in 0..3usize {
        assert!(v.array_get(&heap, i).is_ok());
    }
    assert_eq!(v.array_get(&heap, 0), Ok(Value::fixnum(10)));
    assert_eq!(v.array_get(&heap, 2), Ok(Value::fixnum(30)));
    assert_eq!(v.array_get(&heap, 3), Err(SchemeError::IndexOutOfRange));
    assert_eq!(v.array_get(&heap, 17), Err(SchemeError::IndexOutOfRange));
}

#[test]
fn vector_store_round_trips_and_checks_bounds() {
    let mut heap = Heap::new();
    let v = heap.alloc_vector(vec![Value::fixnum(0); 4]);
    for i in 0..4usize {
        assert_eq!(v.array_set(&mut heap, i, Value::fixnum(100 + i as i64)), Ok(()));
    }
    for i in 0..4usize {
        assert_eq!(v.array_get(&heap, i), Ok(Value::fixnum(100 + i as i64)));
    }
    assert_eq!(
        v.array_set(&mut heap, 4, Value::fixnum(0)),
        Err(SchemeError::IndexOutOfRange)
    );
    assert_eq!(
        v.array_set(&mut heap, 400, Value::fixnum(0)),
        Err(SchemeError::IndexOutOfRange)
    );
    // A failed store leaves every slot as it was.
    assert_eq!(v.array_get(&heap, 3), Ok(Value::fixnum(103)));
}

#[test]
fn array_accessors_reject_non_vectors() {
    let mut heap = Heap::new();
    let p = heap.alloc_pair(Value::fixnum(1), Value::fixnum(2));
    assert_eq!(p.array_get(&heap, 0), Err(SchemeError::WrongType));
    assert_eq!(
        p.array_set(&mut heap, 0, Value::fixnum(0)),
        Err(SchemeError::WrongType)
    );
    assert_eq!(
        Value::fixnum(3).array_get(&heap, 0),
        Err(SchemeError::WrongType)
    );
}

#[test]
fn record_and_closure_sub_kinds_share_the_indexing_bound() {
    let mut heap = Heap::new();
    let descriptor = Value::new(8);
    let field = Value::fixnum(7);
    let r = heap.alloc_vector_family(1, vec![descriptor, field]);
    assert_eq!(r.tag(), Tags::Vector);
    // Slot 0 (the descriptor) indexes like any other slot; the bound is
    // the allocation's extent.
    assert_eq!(r.array_get(&heap, 0), Ok(descriptor));
    assert_eq!(r.array_get(&heap, 1), Ok(field));
    assert_eq!(r.array_get(&heap, 2), Err(SchemeError::IndexOutOfRange));
}

#[test]
fn headers_record_sub_kind_and_count() {
    let mut heap = Heap::new();
    let v = heap.alloc_vector(vec![Value::fixnum(0); 5]);
    let r = heap.alloc_vector_family(2, vec![Value::fixnum(0); 3]);
    match &heap.objects[0] {
        HeapObject::Vector(vector) => {
            assert_eq!(vector.header, 5);
            assert_eq!(vector.data.len(), 5);
        }
        _ => panic!("expected a vector object"),
    }
    match &heap.objects[1] {
        HeapObject::Vector(vector) => {
            assert_eq!(vector.header >> 61, 2);
            assert_eq!(vector.header & !HEADER_TAG, 3);
        }
        _ => panic!("expected a vector object"),
    }
    assert_eq!(v.size(&heap), Some(5));
    assert_eq!(r.size(&heap), Some(3));
}

#[test]
fn pair_header_and_size() {
    let mut heap = Heap::new();
    let p = heap.alloc_pair(Value::fixnum(1), Value::fixnum(2));
    match &heap.objects[0] {
        HeapObject::Pair(pair) => assert_eq!(pair.header, PAIR_HEADER),
        _ => panic!("expected a pair object"),
    }
    assert_eq!(p.size(&heap), Some(3));
    assert_eq!(Value::fixnum(44).size(&heap), None);
}

#[test]
fn root_stack_pushes_and_pops() {
    let mut heap = Heap::new();
    let a = Value::fixnum(6);
    let b = Value::fixnum(7);
    heap.push_root(a);
    heap.push_root(b);
    assert_eq!(heap.pop_root(), Some(b));
    assert_eq!(heap.pop_root(), Some(a));
    assert_eq!(heap.pop_root(), None);
}
