//! The device-state event bridge: conversion of the device records that the
//! native device manager hands to its callbacks, and the registration state
//! of the bridge.

use vstd::prelude::*;

verus! {

/// The form of authentication between this device and a peer.
#[allow(non_camel_case_types)]
#[derive(Clone, Copy, Debug, PartialEq, Eq, Structural)]
pub enum CDmAuthForm {
    /// Invalid type.
    INVALIDTYPE,
    /// Peer to peer.
    PEERTOPEER,
    /// Identical account.
    IDENTICALACCOUNT,
    /// Across account.
    ACROSSACCOUNT,
}

/// The integer that stands for each form across the boundary.
pub open spec fn auth_form_code(f: CDmAuthForm) -> i32 {
    match f {
        CDmAuthForm::INVALIDTYPE => -1i32,
        CDmAuthForm::PEERTOPEER => 0i32,
        CDmAuthForm::IDENTICALACCOUNT => 1i32,
        CDmAuthForm::ACROSSACCOUNT => 2i32,
    }
}

/// The form an integer stands for, if any.
pub open spec fn auth_form_of(v: i32) -> Option<CDmAuthForm> {
    if v == -1 {
        Some(CDmAuthForm::INVALIDTYPE)
    } else if v == 0 {
        Some(CDmAuthForm::PEERTOPEER)
    } else if v == 1 {
        Some(CDmAuthForm::IDENTICALACCOUNT)
    } else if v == 2 {
        Some(CDmAuthForm::ACROSSACCOUNT)
    } else {
        None
    }
}

impl CDmAuthForm {
    /// The integer that stands for this form.
    pub fn code(self) -> (r: i32)
        ensures
            r == auth_form_code(self),
    {
        match self {
            CDmAuthForm::INVALIDTYPE => -1i32,
            CDmAuthForm::PEERTOPEER => 0i32,
            CDmAuthForm::IDENTICALACCOUNT => 1i32,
            CDmAuthForm::ACROSSACCOUNT => 2i32,
        }
    }

    /// The form an integer stands for; `None` outside `-1..=2`.
    pub fn from_code(v: i32) -> (r: Option<CDmAuthForm>)
        ensures
            r == auth_form_of(v),
    {
        if v == -1 {
            Some(CDmAuthForm::INVALIDTYPE)
        } else if v == 0 {
            Some(CDmAuthForm::PEERTOPEER)
        } else if v == 1 {
            Some(CDmAuthForm::IDENTICALACCOUNT)
        } else if v == 2 {
            Some(CDmAuthForm::ACROSSACCOUNT)
        } else {
            None
        }
    }
}

/// A device record as the native side lays it out, read field by field;
/// a string field is `None` where the native pointer is null, and the
/// authentication form is the raw integer.
pub struct CDmDeviceInfo {
    /// The device id property of the `CDmDeviceInfo`.
    pub device_id: Option<String>,
    /// The device name property of the `CDmDeviceInfo`.
    pub device_name: Option<String>,
    /// The device type id property of the `CDmDeviceInfo`.
    pub device_type_id: u16,
    /// The network id property of the `CDmDeviceInfo`.
    pub network_id: Option<String>,
    /// The range property of the `CDmDeviceInfo`.
    pub range: i32,
    /// The auth form property of the `CDmDeviceInfo`.
    pub auth_form: i32,
}

/// A well-formed device record on the managed side.
pub struct DmDeviceInfo {
    /// Device id.
    pub device_id: String,
    /// Device name.
    pub device_name: String,
    /// Device type id.
    pub device_type_id: u16,
    /// Network id.
    pub network_id: String,
    /// Proximity range.
    pub range: i32,
    /// Authentication form.
    pub auth_form: CDmAuthForm,
}

/// Whether a native record can be converted: no null string and a known
/// authentication form.
pub open spec fn raw_well_formed(raw: &CDmDeviceInfo) -> bool {
    &&& raw.device_id.is_some()
    &&& raw.device_name.is_some()
    &&& raw.network_id.is_some()
    &&& auth_form_of(raw.auth_form).is_some()
}

/// Whether a managed record holds exactly what a well-formed native record holds.
pub open spec fn converted_from(info: &DmDeviceInfo, raw: &CDmDeviceInfo) -> bool {
    &&& raw_well_formed(raw)
    &&& info.device_id@ == raw.device_id.unwrap()@
    &&& info.device_name@ == raw.device_name.unwrap()@
    &&& info.device_type_id == raw.device_type_id
    &&& info.network_id@ == raw.network_id.unwrap()@
    &&& info.range == raw.range
    &&& Some(info.auth_form) == auth_form_of(raw.auth_form)
}

/// What a callback that received a device record hands on: a managed
/// record exactly when the pointer is not null and the record is well formed.
pub open spec fn event_spec(device_info: Option<&CDmDeviceInfo>, r: Option<DmDeviceInfo>) -> bool {
    match device_info {
        None => r.is_none(),
        Some(raw) => {
            &&& r.is_some() == raw_well_formed(raw)
            &&& r.is_some() ==> converted_from(&r.unwrap(), raw)
        },
    }
}

/// A copy of a string that may be absent.
fn copy_str(s: &Option<String>) -> (r: Option<String>)
    ensures
        r.is_some() == s.is_some(),
        r.is_some() ==> r.unwrap()@ == s.unwrap()@,
{
    match s {
        Some(v) => Some(v.clone()),
        None => None,
    }
}

impl DmDeviceInfo {
    /// Converts the record behind a callback's pointer (`None` when the
    /// pointer is null) into a managed record that owns its strings; a null
    /// pointer, a null string or an unknown authentication form gives `None`.
    pub fn from_raw(device_info: Option<&CDmDeviceInfo>) -> (r: Option<DmDeviceInfo>)
        ensures
            event_spec(device_info, r),
    {
        let raw = match device_info {
            Some(raw) => raw,
            None => return None,
        };
        let auth_form = match CDmAuthForm::from_code(raw.auth_form) {
            Some(f) => f,
            None => return None,
        };
        let device_id = match copy_str(&raw.device_id) {
            Some(s) => s,
            None => return None,
        };
        let device_name = match copy_str(&raw.device_name) {
            Some(s) => s,
            None => return None,
        };
        let network_id = match copy_str(&raw.network_id) {
            Some(s) => s,
            None => return None,
        };
        Some(
            DmDeviceInfo {
                device_id,
                device_name,
                device_type_id: raw.device_type_id,
                network_id,
                range: raw.range,
                auth_form,
            },
        )
    }
}

/// Callback when the device online: the record to hand on, if the native
/// one is present and well formed.
pub fn on_device_online(device_info: Option<&CDmDeviceInfo>) -> (r: Option<DmDeviceInfo>)
    ensures
        event_spec(device_info, r),
{
    DmDeviceInfo::from_raw(device_info)
}

/// Callback when the device changed: the record to hand on, if the native
/// one is present and well formed.
pub fn on_device_changed(device_info: Option<&CDmDeviceInfo>) -> (r: Option<DmDeviceInfo>)
    ensures
        event_spec(device_info, r),
{
    DmDeviceInfo::from_raw(device_info)
}

/// Callback when the device ready: the record to hand on, if the native
/// one is present and well formed.
pub fn on_device_ready(device_info: Option<&CDmDeviceInfo>) -> (r: Option<DmDeviceInfo>)
    ensures
        event_spec(device_info, r),
{
    DmDeviceInfo::from_raw(device_info)
}

/// Callback when the device offline: the record to hand on, if the native
/// one is present and well formed.
pub fn on_device_offline(device_info: Option<&CDmDeviceInfo>) -> (r: Option<DmDeviceInfo>)
    ensures
        event_spec(device_info, r),
{
    DmDeviceInfo::from_raw(device_info)
}

/// Where the bridge stands with the native device manager. Callbacks are
/// registered only once the manager signalled that it is initialized, and
/// events are handed on only while registered.
pub struct DevStateBridge {
    initialized: bool,
    registered: bool,
}

impl DevStateBridge {
    /// Whether the manager signalled its initialization.
    pub closed spec fn is_initialized(&self) -> bool {
        self.initialized
    }

    /// Whether the four callbacks are registered.
    pub closed spec fn is_registered(&self) -> bool {
        self.registered
    }

    /// Registration is possible only after initialization.
    pub open spec fn wf(&self) -> bool {
        self.is_registered() ==> self.is_initialized()
    }

    /// A bridge before `CInitDeviceManager` answered.
    pub fn new() -> (r: Self)
        ensures
            r.wf(),
            !r.is_initialized(),
            !r.is_registered(),
    {
        DevStateBridge { initialized: false, registered: false }
    }

    /// The one-shot signal that the device manager is initialized.
    pub fn on_device_init(&mut self)
        requires
            old(self).wf(),
        ensures
            final(self).wf(),
            final(self).is_initialized(),
            final(self).is_registered() == old(self).is_registered(),
    {
        self.initialized = true;
    }

    /// Whether `CRegisterDevState` may be called now: the manager is
    /// initialized and the callbacks are not registered yet.
    pub fn may_register(&self) -> (r: bool)
        ensures
            r == (self.is_initialized() && !self.is_registered()),
    {
        self.initialized && !self.registered
    }

    /// Records what `CRegisterDevState` answered; a registration counts only
    /// where it was allowed.
    pub fn on_register_result(&mut self, registered: bool)
        requires
            old(self).wf(),
        ensures
            final(self).wf(),
            final(self).is_initialized() == old(self).is_initialized(),
            final(self).is_registered() == (old(self).is_registered() || (registered
                && old(self).is_initialized())),
    {
        if registered && self.initialized {
            self.registered = true;
        }
    }

    /// Explicit teardown of the registration.
    pub fn teardown(&mut self)
        requires
            old(self).wf(),
        ensures
            final(self).wf(),
            final(self).is_initialized() == old(self).is_initialized(),
            !final(self).is_registered(),
    {
        self.registered = false;
    }

    /// Whether an event that arrives now is handed on.
    pub fn accepts_events(&self) -> (r: bool)
        ensures
            r == self.is_registered(),
    {
        self.registered
    }
}

/// A null device record never yields a record to hand on.
pub proof fn lemma_null_record_dropped(r: Option<DmDeviceInfo>)
    requires
        event_spec(None, r),
    ensures
        r.is_none(),
{
}

} // verus!
