//! The managed handle of the native fusion service and its channel
//! allocation protocol.
//!
//! The native object lives across the foreign boundary; this module holds the
//! decisions around it: whether a handle may be used, which reference-count
//! call each managed lifecycle step makes, how a program name is handed over,
//! and how the status of a channel allocation becomes a result.

use vstd::prelude::*;
use vstd::string::StringSliceAdditionalSpecFns;
use crate::errors::{code_of, FusionErrorCode, FusionResult};

verus! {

/// Represent service instance: the address of the native object, `0` when
/// the native side could not create one.
pub struct FusionNativeService {
    service: usize,
}

/// A step in the life of a managed handle.
#[derive(Clone, Copy, Debug, PartialEq, Eq, Structural)]
pub enum HandleOp {
    /// A new native object is requested.
    Create,
    /// A second managed handle is made for the same native object.
    Clone,
    /// A managed handle goes out of scope.
    Destroy,
}

/// A call into the native reference count.
#[derive(Clone, Copy, Debug, PartialEq, Eq, Structural)]
pub enum RefCall {
    /// `NativeService_New`: a fresh object with one reference.
    New,
    /// `NativeService_Ref`: one more reference.
    Ref,
    /// `NativeService_Unref`: one reference less.
    Unref,
}

/// The native call made for a lifecycle step on a handle of the given
/// validity; an invalid handle is never passed to the native side.
pub open spec fn ref_call_spec(valid: bool, op: HandleOp) -> Option<RefCall> {
    match op {
        HandleOp::Create => Some(RefCall::New),
        HandleOp::Clone => if valid { Some(RefCall::Ref) } else { None },
        HandleOp::Destroy => if valid { Some(RefCall::Unref) } else { None },
    }
}

/// How a native call changes the reference count.
pub open spec fn call_delta(c: Option<RefCall>) -> int {
    match c {
        Some(RefCall::New) => 1,
        Some(RefCall::Ref) => 1,
        Some(RefCall::Unref) => -1,
        None => 0,
    }
}

/// The change of the native reference count over a sequence of steps on
/// valid handles.
pub open spec fn net_delta(ops: Seq<HandleOp>) -> int
    decreases ops.len(),
{
    if ops.len() == 0 {
        0
    } else {
        net_delta(ops.drop_last()) + call_delta(ref_call_spec(true, ops.last()))
    }
}

/// How many times a step occurs in a sequence.
pub open spec fn count_op(ops: Seq<HandleOp>, op: HandleOp) -> int
    decreases ops.len(),
{
    if ops.len() == 0 {
        0
    } else {
        count_op(ops.drop_last(), op) + if ops.last() == op { 1int } else { 0int }
    }
}

/// The bytes handed to the native side for a program name: the name and a
/// terminating zero.
pub open spec fn c_name_spec(name: Seq<u8>) -> Seq<u8> {
    name.push(0u8)
}

impl FusionNativeService {
    /// The native address held.
    pub closed spec fn address(&self) -> usize {
        self.service
    }

    /// Whether the native object exists.
    pub open spec fn valid(&self) -> bool {
        self.address() != 0
    }

    /// Wraps the address that `NativeService_New` or `NativeService_Ref` returned.
    pub fn from_raw(service: usize) -> (r: Self)
        ensures
            r.address() == service,
    {
        FusionNativeService { service }
    }

    /// The native address held.
    pub fn as_raw(&self) -> (r: usize)
        ensures
            r == self.address(),
    {
        self.service
    }

    /// Whether the native side created the object.
    pub fn is_valid(&self) -> (r: bool)
        ensures
            r == self.valid(),
    {
        self.service != 0
    }

    /// The reference-count call that a lifecycle step of this handle makes.
    pub fn ref_call(&self, op: HandleOp) -> (r: Option<RefCall>)
        ensures
            r == ref_call_spec(self.valid(), op),
    {
        match op {
            HandleOp::Create => Some(RefCall::New),
            HandleOp::Clone => if self.is_valid() { Some(RefCall::Ref) } else { None },
            HandleOp::Destroy => if self.is_valid() { Some(RefCall::Unref) } else { None },
        }
    }

    /// Whether a notification (start, stop, dump) may be sent: only to a valid handle.
    pub fn may_notify(&self) -> (r: FusionResult<i32>)
        ensures
            self.valid() ==> r == Ok::<i32, i32>(0),
            !self.valid() ==> r == Err::<i32, i32>(code_of(FusionErrorCode::Fail)),
    {
        if self.is_valid() {
            Ok(0)
        } else {
            Err(FusionErrorCode::Fail.code())
        }
    }

    /// The program name as handed to `NativeService_AllocSocketFd`: its bytes
    /// and a terminating zero. An invalid handle fails with `Fail`; a name that
    /// holds a zero byte, which the native side would cut short, fails with
    /// `InvalidParam`.
    pub fn alloc_socket_request(&self, program_name: &str) -> (r: FusionResult<Vec<u8>>)
        requires
            program_name.spec_bytes().len() < usize::MAX,
        ensures
            !self.valid() ==> r == Err::<Vec<u8>, i32>(code_of(FusionErrorCode::Fail)),
            self.valid() && program_name.spec_bytes().contains(0u8) ==> r == Err::<Vec<u8>, i32>(
                code_of(FusionErrorCode::InvalidParam),
            ),
            self.valid() && !program_name.spec_bytes().contains(0u8) ==> r.is_ok()
                && r.unwrap()@ == c_name_spec(program_name.spec_bytes()),
    {
        if !self.is_valid() {
            return Err(FusionErrorCode::Fail.code());
        }
        let bytes: &[u8] = program_name.as_bytes();
        let mut out: Vec<u8> = Vec::new();
        let mut i: usize = 0;
        while i < bytes.len()
            invariant
                self.valid(),
                bytes@ == program_name.spec_bytes(),
                i <= bytes@.len(),
                out@ == bytes@.subrange(0, i as int),
                forall|k: int| 0 <= k < i ==> bytes@[k] != 0u8,
            decreases bytes@.len() - i,
        {
            if bytes[i] == 0u8 {
                assert(bytes@.contains(0u8)) by {
                    assert(bytes@[i as int] == 0u8);
                }
                return Err(FusionErrorCode::InvalidParam.code());
            }
            out.push(bytes[i]);
            assert(out@ =~= bytes@.subrange(0, i + 1));
            i = i + 1;
        }
        assert(out@ =~= bytes@);
        assert(!bytes@.contains(0u8));
        out.push(0u8);
        Ok(out)
    }

    /// The result of a channel allocation from the status that
    /// `NativeService_AllocSocketFd` returned with the descriptor and token type
    /// it wrote. On status `0` the descriptor and token type are handed to the
    /// caller, who then owns the descriptor; on any other status the status is
    /// the error and neither output is touched, so no descriptor leaves a
    /// failed call. An invalid handle, which is never passed to the native
    /// side, fails with `Fail`.
    pub fn alloc_socket_fd(
        &self,
        status: i32,
        fd: i32,
        token: i32,
        client_fd: &mut i32,
        token_type: &mut i32,
    ) -> (r: FusionResult<i32>)
        ensures
            !self.valid() ==> r == Err::<i32, i32>(code_of(FusionErrorCode::Fail)),
            self.valid() && status == 0 ==> r == Ok::<i32, i32>(0),
            self.valid() && status != 0 ==> r == Err::<i32, i32>(status),
            r.is_ok() ==> *final(client_fd) == fd && *final(token_type) == token,
            r.is_err() ==> *final(client_fd) == *old(client_fd) && *final(token_type) == *old(
                token_type,
            ),
    {
        if !self.is_valid() {
            return Err(FusionErrorCode::Fail.code());
        }
        if status == 0 {
            *client_fd = fd;
            *token_type = token;
            Ok(0)
        } else {
            Err(status)
        }
    }
}

/// Over any sequence of lifecycle steps on valid handles, the native
/// reference count changes by the number of creations and clones less the
/// number of destructions.
pub proof fn lemma_net_ref_delta(ops: Seq<HandleOp>)
    ensures
        net_delta(ops) == count_op(ops, HandleOp::Create) + count_op(ops, HandleOp::Clone)
            - count_op(ops, HandleOp::Destroy),
    decreases ops.len(),
{
    if ops.len() > 0 {
        lemma_net_ref_delta(ops.drop_last());
    }
}

/// A handle that is created and then destroyed leaves the native reference
/// count where it was.
pub proof fn lemma_create_destroy_balanced()
    ensures
        net_delta(seq![HandleOp::Create, HandleOp::Destroy]) == 0,
{
    let ops = seq![HandleOp::Create, HandleOp::Destroy];
    assert(ops.drop_last() =~= seq![HandleOp::Create]);
    assert(ops.drop_last().drop_last() =~= Seq::<HandleOp>::empty());
    let first = ops.drop_last();
    assert(first.last() == HandleOp::Create);
    assert(net_delta(first.drop_last()) == 0);
    assert(net_delta(first) == 1);
    assert(ops.last() == HandleOp::Destroy);
}

} // verus!
