use rusty_scheme::bytecode::{
    allocate_bytecode, get_constants_vector, verify_bytecodes, BadByteCode, Bytecode, Opcode,
};
use rusty_scheme::heap::{Heap, HeapObject};
use rusty_scheme::value::{Tags, Value, HEADER_TAG};

fn ins(opcode: Opcode, src: u8, src2: u8, dst: u8) -> Bytecode {
    Bytecode { opcode, src, src2, dst }
}

#[test]
fn cons_sequence_verifies_with_final_depth_one() {
    let code = vec![
        ins(Opcode::LoadTrue, 0, 0, 0),
        ins(Opcode::LoadNil, 0, 0, 0),
        ins(Opcode::Cons, 1, 0, 2),
    ];
    assert_eq!(verify_bytecodes(&code, 0, false, 0), Ok(1));
}

#[test]
fn car_on_empty_stack_underflows() {
    let code = vec![ins(Opcode::Car, 0, 0, 0)];
    assert_eq!(
        verify_bytecodes(&code, 0, false, 0),
        Err(BadByteCode::StackUnderflow { index: 0, depth: 0, min: 1 })
    );
}

#[test]
fn load_environment_out_of_range() {
    let code = vec![ins(Opcode::LoadEnvironment, 2, 0, 0)];
    assert_eq!(
        verify_bytecodes(&code, 0, false, 1),
        Err(BadByteCode::EnvOutOfRange { index: 0, required_length: 3, actual_length: 1 })
    );
}

#[test]
fn load_environment_in_range_pushes() {
    let code = vec![ins(Opcode::LoadEnvironment, 0, 0, 0)];
    assert_eq!(verify_bytecodes(&code, 0, false, 1), Ok(1));
}

#[test]
fn empty_sequence_verifies_at_depth_zero() {
    assert_eq!(verify_bytecodes(&[], 0, false, 0), Ok(0));
}

#[test]
fn error_reports_the_offending_index() {
    let code = vec![
        ins(Opcode::LoadTrue, 0, 0, 0),
        ins(Opcode::LoadTrue, 0, 0, 0),
        ins(Opcode::SetCar, 0, 2, 0),
    ];
    assert_eq!(
        verify_bytecodes(&code, 0, false, 0),
        Err(BadByteCode::StackUnderflow { index: 2, depth: 2, min: 3 })
    );
}

#[test]
fn arithmetic_pops_two_pushes_one() {
    let code = vec![
        ins(Opcode::LoadTrue, 0, 0, 0),
        ins(Opcode::LoadTrue, 0, 0, 0),
        ins(Opcode::Add, 0, 0, 0),
    ];
    assert_eq!(verify_bytecodes(&code, 0, false, 0), Ok(1));
    let short = vec![ins(Opcode::LoadTrue, 0, 0, 0), ins(Opcode::Multiply, 0, 0, 0)];
    assert_eq!(
        verify_bytecodes(&short, 0, false, 0),
        Err(BadByteCode::StackUnderflow { index: 1, depth: 1, min: 2 })
    );
}

#[test]
fn argument_checks_use_the_declared_count() {
    let code = vec![ins(Opcode::LoadArgument, 1, 0, 0)];
    assert_eq!(verify_bytecodes(&code, 2, false, 0), Ok(1));
    assert_eq!(
        verify_bytecodes(&code, 1, false, 0),
        Err(BadByteCode::StackUnderflow { index: 0, depth: 1, min: 2 })
    );
}

#[test]
fn store_environment_checks_destination_slot() {
    let code = vec![
        ins(Opcode::LoadTrue, 0, 0, 0),
        ins(Opcode::StoreEnvironment, 0, 0, 3),
    ];
    assert_eq!(
        verify_bytecodes(&code, 0, false, 2),
        Err(BadByteCode::EnvOutOfRange { index: 1, required_length: 4, actual_length: 2 })
    );
    assert_eq!(verify_bytecodes(&code, 0, false, 4), Ok(1));
}

#[test]
fn return_needs_a_value() {
    let code = vec![ins(Opcode::Return, 0, 0, 0)];
    assert_eq!(
        verify_bytecodes(&code, 0, false, 0),
        Err(BadByteCode::StackUnderflow { index: 0, depth: 0, min: 1 })
    );
}

#[test]
fn call_consumes_callee_and_arguments() {
    let code = vec![
        ins(Opcode::LoadTrue, 0, 0, 0),
        ins(Opcode::LoadTrue, 0, 0, 0),
        ins(Opcode::LoadTrue, 0, 0, 0),
        ins(Opcode::Call, 0, 0, 2),
    ];
    assert_eq!(verify_bytecodes(&code, 0, false, 0), Ok(1));
}

#[test]
fn allocate_bytecode_records_length_and_bytes() {
    let mut heap = Heap::new();
    let constants = heap.alloc_vector(vec![Value::fixnum(1), Value::fixnum(2)]);
    heap.push_root(constants);
    let code_bytes: Vec<u8> = vec![25, 0, 0, 0, 26, 0, 0, 0, 0, 1, 0, 2];
    allocate_bytecode(&code_bytes, &mut heap);

    // The constants vector is no longer the top of the stack; the new
    // bytecode reference replaced it.
    assert_eq!(heap.stack.len(), 1);
    let bco_ref = heap.stack[0];
    assert_ne!(bco_ref, constants);
    assert_eq!(bco_ref.tag(), Tags::RustData);

    match &heap.objects[1] {
        HeapObject::Bytecode(bco) => {
            assert_eq!(bco.bytecode_length, code_bytes.len());
            assert_eq!(bco.code, code_bytes);
            assert_eq!(get_constants_vector(bco), constants);
            // Header word, byte-length word, twelve code bytes rounded
            // up to two words, and the trailing constants word.
            assert_eq!(bco.header, HEADER_TAG | 5);
        }
        _ => panic!("expected a bytecode object"),
    }
}

#[test]
fn allocate_bytecode_of_empty_code() {
    let mut heap = Heap::new();
    let constants = heap.alloc_vector(vec![]);
    heap.push_root(constants);
    allocate_bytecode(&[], &mut heap);
    match &heap.objects[1] {
        HeapObject::Bytecode(bco) => {
            assert_eq!(bco.bytecode_length, 0);
            assert!(bco.code.is_empty());
            assert_eq!(get_constants_vector(bco), constants);
        }
        _ => panic!("expected a bytecode object"),
    }
}
