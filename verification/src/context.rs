//! The device-context lifecycle: a slot that is initialized exactly once,
//! destroyed exactly once, and is the source of the device configuration
//! between those calls.
//!
//! The slot itself carries the lifecycle logic with typed errors — double
//! initialization and access outside the initialized window are distinct
//! [`Violation`]s, not panics — so lifecycle misuse can be probed without
//! crashing.  Making one slot the process-wide singleton behind a
//! reader/writer lock is the embedding program's concern; the instance,
//! physical-device selection and allocator bring-up behind `init` are
//! external collaborators and stay outside this crate.

use vstd::prelude::*;

use crate::error::Error;
use crate::error::Violation;

verus! {

/// Target device-API version.
#[derive(Clone, Copy, Debug, PartialEq, Eq, Structural)]
pub enum ApiVersion {
    V1_0,
    V1_1,
    V1_2,
    V1_3,
}

/// The configuration a context is initialized with: application identity
/// strings, target API version, and the debug-layer toggle.
#[derive(Debug)]
pub struct ContextInfo {
    pub app_name: String,
    pub engine_name: String,
    pub version: ApiVersion,
    pub debugging: bool,
}

impl ContextInfo {
    pub fn app_name(self, app_name: String) -> (c: ContextInfo)
        ensures
            c.app_name == app_name,
            c.engine_name == self.engine_name,
            c.version == self.version,
            c.debugging == self.debugging,
    {
        ContextInfo { app_name, ..self }
    }

    pub fn engine_name(self, engine_name: String) -> (c: ContextInfo)
        ensures
            c.engine_name == engine_name,
            c.app_name == self.app_name,
            c.version == self.version,
            c.debugging == self.debugging,
    {
        ContextInfo { engine_name, ..self }
    }

    pub fn version(self, version: ApiVersion) -> (c: ContextInfo)
        ensures
            c.version == version,
            c.app_name == self.app_name,
            c.engine_name == self.engine_name,
            c.debugging == self.debugging,
    {
        ContextInfo { version, ..self }
    }

    pub fn debugging(self, debugging: bool) -> (c: ContextInfo)
        ensures
            c.debugging == debugging,
            c.app_name == self.app_name,
            c.engine_name == self.engine_name,
            c.version == self.version,
    {
        ContextInfo { debugging, ..self }
    }
}

impl Default for ContextInfo {
    fn default() -> (c: ContextInfo)
        ensures
            c.app_name@ == "Vulkan App"@,
            c.engine_name@ == "Engine"@,
            c.version == ApiVersion::V1_3,
            !c.debugging,
    {
        ContextInfo {
            app_name: "Vulkan App".to_owned(),
            engine_name: "Engine".to_owned(),
            version: ApiVersion::V1_3,
            debugging: false,
        }
    }
}

/// The context slot: uninitialized, or holding the configuration the
/// device chain was brought up with.
pub struct Context {
    state: Option<ContextInfo>,
}

impl Context {
    pub closed spec fn spec_initialized(self) -> bool {
        self.state is Some
    }

    pub closed spec fn spec_info(self) -> ContextInfo
        recommends
            self.spec_initialized(),
    {
        self.state->0
    }

    /// A fresh, uninitialized slot.
    pub fn new() -> (c: Context)
        ensures
            !c.spec_initialized(),
    {
        Context { state: None }
    }

    pub fn is_initialized(&self) -> (b: bool)
        ensures
            b == self.spec_initialized(),
    {
        self.state.is_some()
    }

    /// Initialize the context with the given configuration.  Initializing
    /// an already-initialized context is rejected as a contract violation
    /// rather than silently replacing the state.
    pub fn init(&mut self, info: ContextInfo) -> (r: Result<(), Error>)
        ensures
            old(self).spec_initialized() ==> {
                &&& r == Err::<(), Error>(Error::Contract(Violation::ContextAlreadyInitialized))
                &&& *final(self) == *old(self)
            },
            !old(self).spec_initialized() ==> {
                &&& r is Ok
                &&& final(self).spec_initialized()
                &&& final(self).spec_info() == info
            },
    {
        if self.state.is_some() {
            return Err(Error::Contract(Violation::ContextAlreadyInitialized));
        }
        self.state = Some(info);
        Ok(())
    }

    /// Tear the context down, returning the slot to the uninitialized
    /// state.  Destroying an uninitialized context is rejected.
    pub fn destroy(&mut self) -> (r: Result<(), Error>)
        ensures
            old(self).spec_initialized() ==> r is Ok,
            !old(self).spec_initialized() ==> r == Err::<(), Error>(
                Error::Contract(Violation::ContextUninitialized),
            ),
            !final(self).spec_initialized(),
    {
        if self.state.is_none() {
            return Err(Error::Contract(Violation::ContextUninitialized));
        }
        self.state = None;
        Ok(())
    }

    /// Shared access to the configuration.  Accessing the context outside
    /// its initialized window is a contract violation.
    pub fn get(&self) -> (r: Result<&ContextInfo, Error>)
        ensures
            self.spec_initialized() ==> (r matches Ok(info) && *info == self.spec_info()),
            !self.spec_initialized() ==> r == Err::<&ContextInfo, Error>(
                Error::Contract(Violation::ContextUninitialized),
            ),
    {
        match &self.state {
            Some(info) => Ok(info),
            None => Err(Error::Contract(Violation::ContextUninitialized)),
        }
    }

    /// Shared access to the configuration, `None` when uninitialized.
    pub fn try_get(&self) -> (r: Option<&ContextInfo>)
        ensures
            self.spec_initialized() ==> (r matches Some(info) && *info == self.spec_info()),
            !self.spec_initialized() ==> r is None,
    {
        match &self.state {
            Some(info) => Some(info),
            None => None,
        }
    }

    /// Exclusive access to the configuration.  Accessing the context
    /// outside its initialized window is a contract violation.
    pub fn get_mut(&mut self) -> (r: Result<&mut ContextInfo, Error>)
        ensures
            old(self).spec_initialized() <==> r is Ok,
            r matches Ok(info) ==> *info == old(self).spec_info()
                && final(self).spec_initialized() && final(self).spec_info() == *final(info),
            r matches Err(e) ==> e == Error::Contract(Violation::ContextUninitialized)
                && *final(self) == *old(self),
    {
        match &mut self.state {
            Some(info) => Ok(info),
            None => Err(Error::Contract(Violation::ContextUninitialized)),
        }
    }

    /// Exclusive access to the configuration, `None` when uninitialized.
    pub fn try_get_mut(&mut self) -> (r: Option<&mut ContextInfo>)
        ensures
            old(self).spec_initialized() <==> r is Some,
            r matches Some(info) ==> *info == old(self).spec_info()
                && final(self).spec_initialized() && final(self).spec_info() == *final(info),
            r is None ==> *final(self) == *old(self),
    {
        match &mut self.state {
            Some(info) => Some(info),
            None => None,
        }
    }
}

} // verus!
