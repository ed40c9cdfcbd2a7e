//! The bytecode instruction set, the static bytecode verifier, and
//! bytecode object construction.
//!
//! An instruction is exactly four bytes: an opcode and three operand
//! bytes `src`, `src2`, `dst`, each operand's meaning opcode-dependent
//! (a stack-relative index, an argument index, an environment index, or
//! a small immediate count).  The verifier makes a single forward pass
//! over an instruction sequence — the instruction set has no branch
//! opcode, so a straight-line pass is sound — and certifies every
//! stack-, argument- and environment-relative operand in bounds.  The
//! interpreter's hot loop performs no further bounds checks on these
//! operand classes: verify once, trust always.

use vstd::prelude::*;

use crate::heap::{Heap, HeapObject, ObjView};
use crate::value::{Tags, Value, RUST_DATA_TAG};

verus! {

/// The opcodes.
#[derive(PartialEq, Eq, Structural, Debug, Copy, Clone)]
pub enum Opcode {
    /// `cons`.  Reads the car at stack depth `src` and the cdr at depth
    /// `src2`; `dst` is the number of stack words the consumed operands
    /// occupy (0, 1 or 2), which are popped.  Pushes the new pair.
    Cons,
    /// `car`: non-destructive read of the pair at stack depth `src`;
    /// pushes the result.
    Car,
    /// `cdr`: as `Car`.
    Cdr,
    /// `set-car!`: mutates the pair at depth `src2` using the value at
    /// depth `src`.
    SetCar,
    /// `set-cdr!`: as `SetCar`.
    SetCdr,
    /// `pair?`: pushes a boolean for pair-ness of the value at depth
    /// `src`.
    IsPair,
    /// Addition: pops two operands, pushes the result.
    Add,
    /// Subtraction.
    Subtract,
    /// Multiplication.
    Multiply,
    /// Division.
    Divide,
    /// Exponentiation.
    Power,
    /// Creates a vector from the top `dst` stack words, which are
    /// popped; pushes the new vector.
    MakeArray,
    /// Stores the value at depth `src` into the vector at depth `src2`,
    /// at the position given by `dst`; the position is checked at run
    /// time against the vector's recorded length.
    SetArray,
    /// Reads from the vector at depth `src` at the position given by
    /// `src2`, checked at run time; pushes the result.
    GetArray,
    /// `vector?`: pushes a boolean for the value at depth `src`.
    IsArray,
    /// Pushes the recorded length of the vector at depth `src`.
    ArrayLen,
    /// Calls the function under the top `dst` argument words; the
    /// arguments and the function are consumed, the result is pushed.
    Call,
    /// As `Call`, but transfers control without growing the control
    /// stack.
    TailCall,
    /// Returns the top of the current frame to the caller.
    Return,
    /// Builds a closure from the bytecode reference at depth `src` and
    /// the top `dst` environment words, which are popped; pushes the
    /// closure.
    Closure,
    /// Overwrites the stack slot at depth `dst` with the value at depth
    /// `src`.
    SetSlot,
    /// Pushes a value from the constants vector, indexed by `src`;
    /// checked at run time against the constants vector's length.
    LoadConstant,
    /// Pushes the captured environment slot `src`.
    LoadEnvironment,
    /// Pushes argument `src`.
    LoadArgument,
    /// Pushes the global bound at constants-vector index `src`; checked
    /// at run time.
    LoadGlobal,
    /// Pushes `#f`.
    LoadFalse,
    /// Pushes `#t`.
    LoadTrue,
    /// Pushes the empty list.
    LoadNil,
    /// Copies the value at stack depth `src` into environment slot
    /// `dst`.
    StoreEnvironment,
    /// Copies the value at stack depth `src` into argument slot `dst`.
    StoreArgument,
    /// Copies the value at stack depth `src` into the global slot named
    /// at run time through the constants vector.
    StoreGlobal,
}

/// One decoded instruction.
#[derive(PartialEq, Eq, Structural, Debug, Copy, Clone)]
pub struct Bytecode {
    pub opcode: Opcode,
    pub src: u8,
    pub src2: u8,
    pub dst: u8,
}

/// A verification-time diagnostic.  It is reported before any
/// instruction of the offending object ever executes, and the object is
/// never constructed as executable.
///
/// An argument-range failure reuses `StackUnderflow`, with `depth`
/// holding the declared argument count and `min` the count the
/// instruction requires.
#[derive(PartialEq, Eq, Structural, Debug, Copy, Clone)]
pub enum BadByteCode {
    StackUnderflow { index: usize, depth: usize, min: usize },
    EnvOutOfRange { index: usize, required_length: usize, actual_length: usize },
}

/// The outcomes of loading a code object.
#[derive(PartialEq, Eq, Structural, Debug, Copy, Clone)]
pub enum SchemeResult {
    BadBytecode(BadByteCode),
}

/// A stack-underflow (or argument-range) diagnostic at instruction
/// `index`.
pub open spec fn underflow(index: usize, depth: usize, min: int) -> Result<usize, BadByteCode> {
    Err(BadByteCode::StackUnderflow { index, depth, min: min as usize })
}

/// An environment-range diagnostic at instruction `index`.
pub open spec fn env_range(index: usize, required: int, actual: usize) -> Result<
    usize,
    BadByteCode,
> {
    Err(
        BadByteCode::EnvOutOfRange {
            index,
            required_length: required as usize,
            actual_length: actual,
        },
    )
}

/// The verifier's transition for one instruction at position `index`:
/// either the tracked operand-stack depth after the instruction, or the
/// diagnostic for the first failing check.  Stack-relative reads at
/// depth `d` require `d < depth`; argument indices must be below
/// `argcount`; environment indices must be below `env_len`; pops of `n`
/// words require `n <= depth`.
pub open spec fn step_spec(
    ins: Bytecode,
    index: usize,
    depth: usize,
    argcount: usize,
    env_len: usize,
) -> Result<usize, BadByteCode> {
    let s = ins.src as usize;
    let s2 = ins.src2 as usize;
    let d = ins.dst as usize;
    match ins.opcode {
        Opcode::Cons | Opcode::Closure => {
            if s >= depth {
                underflow(index, depth, s + 1)
            } else if s2 >= depth {
                underflow(index, depth, s2 + 1)
            } else if d > depth {
                underflow(index, depth, d as int)
            } else {
                Ok((depth - d + 1) as usize)
            }
        },
        Opcode::Car | Opcode::Cdr | Opcode::IsPair | Opcode::GetArray | Opcode::IsArray
            | Opcode::ArrayLen => {
            if s >= depth {
                underflow(index, depth, s + 1)
            } else {
                Ok((depth + 1) as usize)
            }
        },
        Opcode::SetCar | Opcode::SetCdr | Opcode::SetArray => {
            if s >= depth {
                underflow(index, depth, s + 1)
            } else if s2 >= depth {
                underflow(index, depth, s2 + 1)
            } else {
                Ok(depth)
            }
        },
        Opcode::Add | Opcode::Subtract | Opcode::Multiply | Opcode::Divide | Opcode::Power => {
            if depth < 2 {
                underflow(index, depth, 2)
            } else {
                Ok((depth - 1) as usize)
            }
        },
        Opcode::MakeArray => {
            if d > depth {
                underflow(index, depth, d as int)
            } else {
                Ok((depth - d + 1) as usize)
            }
        },
        Opcode::Call | Opcode::TailCall => {
            if d >= depth {
                underflow(index, depth, d + 1)
            } else {
                Ok((depth - d) as usize)
            }
        },
        Opcode::Return => {
            if depth < 1 {
                underflow(index, depth, 1)
            } else {
                Ok((depth - 1) as usize)
            }
        },
        Opcode::SetSlot => {
            if s >= depth {
                underflow(index, depth, s + 1)
            } else if d >= depth {
                underflow(index, depth, d + 1)
            } else {
                Ok(depth)
            }
        },
        Opcode::LoadConstant | Opcode::LoadGlobal | Opcode::LoadFalse | Opcode::LoadTrue
            | Opcode::LoadNil => Ok((depth + 1) as usize),
        Opcode::LoadEnvironment => {
            if s >= env_len {
                env_range(index, s + 1, env_len)
            } else {
                Ok((depth + 1) as usize)
            }
        },
        Opcode::LoadArgument => {
            if s >= argcount {
                underflow(index, argcount, s + 1)
            } else {
                Ok((depth + 1) as usize)
            }
        },
        Opcode::StoreEnvironment => {
            if s >= depth {
                underflow(index, depth, s + 1)
            } else if d >= env_len {
                env_range(index, d + 1, env_len)
            } else {
                Ok(depth)
            }
        },
        Opcode::StoreArgument => {
            if s >= depth {
                underflow(index, depth, s + 1)
            } else if d >= argcount {
                underflow(index, argcount, d + 1)
            } else {
                Ok(depth)
            }
        },
        Opcode::StoreGlobal => {
            if s >= depth {
                underflow(index, depth, s + 1)
            } else {
                Ok(depth)
            }
        },
    }
}

/// The verifier's pass from position `i` onwards, starting at the given
/// tracked depth: the final depth if every remaining instruction passes
/// its checks, or the first diagnostic.
pub open spec fn run_spec(
    code: Seq<Bytecode>,
    i: int,
    depth: usize,
    argcount: usize,
    env_len: usize,
) -> Result<usize, BadByteCode>
    decreases code.len() - i,
{
    if i < 0 || i >= code.len() {
        Ok(depth)
    } else {
        match step_spec(code[i], i as usize, depth, argcount, env_len) {
            Ok(d) => run_spec(code, i + 1, d, argcount, env_len),
            Err(e) => Err(e),
        }
    }
}

/// One verifier step, executably.
fn step_exec(ins: Bytecode, index: usize, depth: usize, argcount: usize, env_len: usize) -> (r:
    Result<usize, BadByteCode>)
    requires
        depth < usize::MAX,
    ensures
        r == step_spec(ins, index, depth, argcount, env_len),
{
    let s: usize = ins.src as usize;
    let s2: usize = ins.src2 as usize;
    let d: usize = ins.dst as usize;
    match ins.opcode {
        Opcode::Cons | Opcode::Closure => {
            if s >= depth {
                Err(BadByteCode::StackUnderflow { index, depth, min: s + 1 })
            } else if s2 >= depth {
                Err(BadByteCode::StackUnderflow { index, depth, min: s2 + 1 })
            } else if d > depth {
                Err(BadByteCode::StackUnderflow { index, depth, min: d })
            } else {
                Ok(depth - d + 1)
            }
        },
        Opcode::Car | Opcode::Cdr | Opcode::IsPair | Opcode::GetArray | Opcode::IsArray
            | Opcode::ArrayLen => {
            if s >= depth {
                Err(BadByteCode::StackUnderflow { index, depth, min: s + 1 })
            } else {
                Ok(depth + 1)
            }
        },
        Opcode::SetCar | Opcode::SetCdr | Opcode::SetArray => {
            if s >= depth {
                Err(BadByteCode::StackUnderflow { index, depth, min: s + 1 })
            } else if s2 >= depth {
                Err(BadByteCode::StackUnderflow { index, depth, min: s2 + 1 })
            } else {
                Ok(depth)
            }
        },
        Opcode::Add | Opcode::Subtract | Opcode::Multiply | Opcode::Divide | Opcode::Power => {
            if depth < 2 {
                Err(BadByteCode::StackUnderflow { index, depth, min: 2 })
            } else {
                Ok(depth - 1)
            }
        },
        Opcode::MakeArray => {
            if d > depth {
                Err(BadByteCode::StackUnderflow { index, depth, min: d })
            } else {
                Ok(depth - d + 1)
            }
        },
        Opcode::Call | Opcode::TailCall => {
            if d >= depth {
                Err(BadByteCode::StackUnderflow { index, depth, min: d + 1 })
            } else {
                Ok(depth - d)
            }
        },
        Opcode::Return => {
            if depth < 1 {
                Err(BadByteCode::StackUnderflow { index, depth, min: 1 })
            } else {
                Ok(depth - 1)
            }
        },
        Opcode::SetSlot => {
            if s >= depth {
                Err(BadByteCode::StackUnderflow { index, depth, min: s + 1 })
            } else if d >= depth {
                Err(BadByteCode::StackUnderflow { index, depth, min: d + 1 })
            } else {
                Ok(depth)
            }
        },
        Opcode::LoadConstant | Opcode::LoadGlobal | Opcode::LoadFalse | Opcode::LoadTrue
            | Opcode::LoadNil => Ok(depth + 1),
        Opcode::LoadEnvironment => {
            if s >= env_len {
                Err(
                    BadByteCode::EnvOutOfRange {
                        index,
                        required_length: s + 1,
                        actual_length: env_len,
                    },
                )
            } else {
                Ok(depth + 1)
            }
        },
        Opcode::LoadArgument => {
            if s >= argcount {
                Err(BadByteCode::StackUnderflow { index, depth: argcount, min: s + 1 })
            } else {
                Ok(depth + 1)
            }
        },
        Opcode::StoreEnvironment => {
            if s >= depth {
                Err(BadByteCode::StackUnderflow { index, depth, min: s + 1 })
            } else if d >= env_len {
                Err(
                    BadByteCode::EnvOutOfRange {
                        index,
                        required_length: d + 1,
                        actual_length: env_len,
                    },
                )
            } else {
                Ok(depth)
            }
        },
        Opcode::StoreArgument => {
            if s >= depth {
                Err(BadByteCode::StackUnderflow { index, depth, min: s + 1 })
            } else if d >= argcount {
                Err(BadByteCode::StackUnderflow { index, depth: argcount, min: d + 1 })
            } else {
                Ok(depth)
            }
        },
        Opcode::StoreGlobal => {
            if s >= depth {
                Err(BadByteCode::StackUnderflow { index, depth, min: s + 1 })
            } else {
                Ok(depth)
            }
        },
    }
}

/// Verifies an instruction sequence against the declared call-frame
/// shape: a single forward scan starting from an empty operand stack.
/// Returns the tracked depth after the last instruction, or the first
/// diagnostic.  `_is_vararg` is part of the declared shape but imposes
/// no further static check.
pub fn verify_bytecodes(
    b: &[Bytecode],
    argcount: u16,
    _is_vararg: bool,
    environment_length: usize,
) -> (r: Result<usize, BadByteCode>)
    ensures
        r == run_spec(b@, 0, 0, argcount as usize, environment_length),
{
    let n: usize = b.len();
    let argc: usize = argcount as usize;
    let mut depth: usize = 0;
    let mut i: usize = 0;
    while i < n
        invariant
            n == b@.len(),
            i <= n,
            depth <= i,
            run_spec(b@, 0, 0, argc, environment_length) == run_spec(
                b@,
                i as int,
                depth,
                argc,
                environment_length,
            ),
            argc == argcount as usize,
        decreases n - i,
    {
        let ins: Bytecode = b[i];
        match step_exec(ins, i, depth, argc, environment_length) {
            Ok(d) => {
                proof {
                    assert(run_spec(b@, i as int, depth, argc, environment_length) == run_spec(
                        b@,
                        i + 1,
                        d,
                        argc,
                        environment_length,
                    ));
                }
                depth = d;
                i = i + 1;
            },
            Err(e) => {
                return Err(e);
            },
        }
    }
    Ok(depth)
}

/// A bytecode object: a header, the recorded length of the instruction
/// bytes, the instruction bytes themselves, and the reference to the
/// constants vector that sits in the word immediately after the code
/// region, so that one allocation serves both the code and its constant
/// pool.  Immutable after construction.
#[derive(Debug)]
pub struct BCO {
    pub header: u64,
    pub bytecode_length: usize,
    pub code: Vec<u8>,
    pub constants_vector: Value,
}

/// The header word of a bytecode object holding `len` instruction
/// bytes: the header tag bits together with the object's size in words
/// (header word, length word, the code region rounded up to whole
/// words, and the trailing constants word).
pub open spec fn bco_header_word(len: int) -> u64 {
    (0xE000_0000_0000_0000 + 3 + (len + 7) / 8) as u64
}

/// The constants vector stored behind a bytecode object.
pub fn get_constants_vector(bco: &BCO) -> (v: Value)
    ensures
        v == bco.constants_vector,
{
    bco.constants_vector
}

/// Turns raw instruction bytes into a bytecode object on the heap.
///
/// The constants vector must already be the top element of the value
/// stack, so that it stays rooted across the allocation.  The bytes are
/// copied verbatim into the new object; the popped constants-vector
/// reference is written into the word after the code region; and a
/// tagged reference to the new object is pushed, replacing the consumed
/// constants vector as the top of the stack.
pub fn allocate_bytecode(obj: &[u8], heap: &mut Heap)
    requires
        old(heap)@.wf(),
        old(heap)@.stack.len() >= 1,
        old(heap)@.stack.last().spec_tag() == Tags::Vector,
        old(heap)@.objects.len() < 0x2000_0000_0000_0000,
        obj@.len() < 0x2000_0000_0000_0000,
    ensures
        final(heap)@.wf(),
        final(heap)@.objects == old(heap)@.objects.push(
            ObjView::Bytecode {
                header: bco_header_word(obj@.len() as int),
                bytecode_length: obj@.len() as usize,
                code: obj@,
                constants: old(heap)@.stack.last(),
            },
        ),
        final(heap)@.stack == old(heap)@.stack.drop_last().push(
            Value { contents: ((old(heap)@.objects.len() as u64) * 8 + RUST_DATA_TAG) as u64 },
        ),
        final(heap)@.stack.last().spec_tag() == Tags::RustData,
        final(heap)@.stack.last().valid(final(heap)@),
{
    let idx: usize = heap.objects.len();
    let len: usize = obj.len();
    let header: u64 = 0xE000_0000_0000_0000 + 3 + ((len as u64) + 7) / 8;
    let mut code: Vec<u8> = Vec::new();
    let mut j: usize = 0;
    while j < len
        invariant
            j <= len,
            len == obj@.len(),
            code@ == obj@.subrange(0, j as int),
        decreases len - j,
    {
        code.push(obj[j]);
        proof {
            assert(code@ =~= obj@.subrange(0, j + 1));
        }
        j = j + 1;
    }
    proof {
        assert(code@ =~= obj@);
    }
    let consts: Value = match heap.stack.pop() {
        Some(v) => v,
        None => unreached(),
    };
    let ghost h0 = old(heap)@;
    let ghost h1 = heap@;
    let ghost o = ObjView::Bytecode {
        header,
        bytecode_length: len,
        code: obj@,
        constants: consts,
    };
    heap.objects.push(HeapObject::Bytecode(BCO {
        header,
        bytecode_length: len,
        code,
        constants_vector: consts,
    }));
    let ghost h2 = heap@;
    proof {
        assert(h1.stack =~= h0.stack.drop_last());
        assert(h1.objects =~= h0.objects);
        assert(h2.objects =~= h1.objects.push(o));
        assert(h1.wf()) by {
            assert forall|i: int|
                0 <= i < h1.objects.len() implies h1.obj_wf(#[trigger] h1.objects[i]) by {
                assert(h0.obj_wf(h0.objects[i]));
                crate::heap::lemma_obj_wf_preserved(h0.objects[i], h0, h1);
            };
            assert forall|i: int|
                0 <= i < h1.stack.len() implies (#[trigger] h1.stack[i]).valid(h1) by {
                assert(h0.stack[i].valid(h0));
                crate::heap::lemma_valid_preserved(h0.stack[i], h0, h1);
            };
        };
        assert(h1.obj_wf(o)) by {
            assert(consts.valid(h0));
            crate::heap::lemma_valid_preserved(consts, h0, h1);
        };
        crate::heap::lemma_wf_push(h1, h2, o);
    }
    heap.stack.push(Value::new((idx as u64) * 8 + RUST_DATA_TAG));
    proof {
        let h3 = heap@;
        let bv = Value { contents: ((idx as u64) * 8 + RUST_DATA_TAG) as u64 };
        assert(h3.objects =~= h2.objects);
        assert(h3.stack =~= h2.stack.push(bv));
        assert(bv.spec_ptr() == idx);
        assert(bv.valid(h3));
        assert(h3.wf()) by {
            assert forall|i: int|
                0 <= i < h3.objects.len() implies h3.obj_wf(#[trigger] h3.objects[i]) by {
                crate::heap::lemma_obj_wf_preserved(h2.objects[i], h2, h3);
            };
            assert forall|i: int|
                0 <= i < h3.stack.len() implies (#[trigger] h3.stack[i]).valid(h3) by {
                if i < h2.stack.len() {
                    crate::heap::lemma_valid_preserved(h2.stack[i], h2, h3);
                }
            };
        };
        assert(h3.objects =~= h0.objects.push(
            ObjView::Bytecode {
                header: bco_header_word(obj@.len() as int),
                bytecode_length: obj@.len() as usize,
                code: obj@,
                constants: h0.stack.last(),
            },
        ));
        assert(h3.stack =~= h0.stack.drop_last().push(bv));
    }
}

} // verus!
