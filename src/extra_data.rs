//! The extra-data descriptor that attaches a drag buffer to the active
//! session. The descriptor borrows the buffer: it stays valid for as long as
//! the drag data it was filled from.

use vstd::prelude::*;
use crate::errors::{code_of, FusionErrorCode, FusionResult};

verus! {

/// The drag payload whose buffer is attached.
pub struct DragData {
    /// The serialized drag buffer.
    pub buffer: Vec<u8>,
    /// The source type of the drag.
    pub source_type: i32,
    /// The pointer id of the drag.
    pub pointer_id: i32,
}

/// The descriptor handed to `CAppendExtraData`.
pub struct CExtraData<'a> {
    /// Whether the data may be appended.
    pub appended: bool,
    /// A view of the buffer; its length is the size handed across.
    pub buffer: &'a [u8],
    /// The source type; `-1` when unset.
    pub source_type: i32,
    /// The pointer id; `-1` when unset.
    pub pointer_id: i32,
}

impl<'a> CExtraData<'a> {
    /// Create a CExtraData object
    pub fn new(appended: bool) -> (r: Self)
        ensures
            r.appended == appended,
            r.buffer@.len() == 0,
            r.source_type == -1,
            r.pointer_id == -1,
    {
        CExtraData { appended, buffer: &[], source_type: -1i32, pointer_id: -1i32 }
    }

    /// Set CExtraData appended property
    pub fn set_appended(&mut self, appended: bool) -> (r: &mut Self)
        ensures
            *r == (CExtraData { appended, ..*old(self) }),
            *final(self) == *final(r),
    {
        self.appended = appended;
        self
    }

    /// Set CExtraData buffer property
    pub fn set_buffer(&mut self, vec: &'a Vec<u8>) -> (r: &mut Self)
        ensures
            r.appended == old(self).appended,
            r.buffer@ == vec@,
            r.source_type == old(self).source_type,
            r.pointer_id == old(self).pointer_id,
            *final(self) == *final(r),
    {
        self.buffer = vec.as_slice();
        self
    }

    /// Set CExtraData source type property
    pub fn set_source_type(&mut self, source_type: i32) -> (r: &mut Self)
        ensures
            *r == (CExtraData { source_type, ..*old(self) }),
            *final(self) == *final(r),
    {
        self.source_type = source_type;
        self
    }

    /// Set CExtraData pointer id property
    pub fn set_pointer_id(&mut self, pointer_id: i32) -> (r: &mut Self)
        ensures
            *r == (CExtraData { pointer_id, ..*old(self) }),
            *final(self) == *final(r),
    {
        self.pointer_id = pointer_id;
        self
    }
}

/// struct ExtraData
pub struct ExtraData<'a> {
    inner: CExtraData<'a>,
}

/// The result of an append from the status that `CAppendExtraData` returned:
/// `0` is success, any other status is the error as it stands.
pub open spec fn append_result_spec(status: i32) -> FusionResult<i32> {
    if status == 0 {
        Ok(0)
    } else {
        Err(status)
    }
}

impl<'a> ExtraData<'a> {
    /// The descriptor held.
    pub closed spec fn descriptor(&self) -> CExtraData<'a> {
        self.inner
    }

    /// Create a ExtraData object
    pub fn new(appended: bool) -> (r: Self)
        ensures
            r.descriptor().appended == appended,
            r.descriptor().buffer@.len() == 0,
            r.descriptor().source_type == -1,
            r.descriptor().pointer_id == -1,
    {
        ExtraData { inner: CExtraData::new(appended) }
    }

    /// The descriptor to hand to `CAppendExtraData`.
    pub fn inner(&self) -> (r: &CExtraData<'a>)
        ensures
            *r == self.descriptor(),
    {
        &self.inner
    }

    /// Fills the descriptor from the drag data so that it can be sent to the
    /// external subsystem. An empty buffer fails with `Fail` and leaves the
    /// descriptor as it was: nothing is to be sent then.
    pub fn appended_extra_data(&mut self, allow_appended: bool, drag_data: &'a DragData) -> (r:
        FusionResult<i32>)
        ensures
            drag_data.buffer@.len() == 0 ==> {
                &&& r == Err::<i32, i32>(code_of(FusionErrorCode::Fail))
                &&& final(self).descriptor() == old(self).descriptor()
            },
            drag_data.buffer@.len() != 0 ==> {
                &&& r == Ok::<i32, i32>(0)
                &&& final(self).descriptor().appended == allow_appended
                &&& final(self).descriptor().buffer@ == drag_data.buffer@
                &&& final(self).descriptor().source_type == drag_data.source_type
                &&& final(self).descriptor().pointer_id == drag_data.pointer_id
            },
    {
        let buffer: &Vec<u8> = &drag_data.buffer;
        if buffer.len() == 0 {
            return Err(FusionErrorCode::Fail.code());
        }
        self.inner.set_appended(allow_appended).set_buffer(buffer).set_source_type(
            drag_data.source_type,
        ).set_pointer_id(drag_data.pointer_id);
        Ok(0)
    }
}

/// The result of an append from the status that `CAppendExtraData` returned.
pub fn append_result(status: i32) -> (r: FusionResult<i32>)
    ensures
        r == append_result_spec(status),
{
    if status == 0 {
        Ok(0)
    } else {
        Err(status)
    }
}

} // verus!
