//! Service configuration and the service's control state machine
//! (stopped, running, paused).

use vstd::prelude::*;
use vstd::string::StringExecFns;
use crate::service_error::{ServiceError, ServiceResult};

verus! {

/// Configuration of the Windows service.
#[derive(Debug)]
pub struct WindowsServiceConfig {
    /// Service name (must be unique).
    pub service_name: String,
    /// Display name (shown in the Services app).
    pub display_name: String,
    /// Description (shown in the Services app).
    pub description: String,
}

impl Clone for WindowsServiceConfig {
    fn clone(&self) -> (r: Self)
        ensures
            r == *self,
    {
        WindowsServiceConfig {
            service_name: self.service_name.clone(),
            display_name: self.display_name.clone(),
            description: self.description.clone(),
        }
    }
}

/// `c` is the default configuration: the service's standard name, display
/// name and description.
pub open spec fn is_default_config(c: WindowsServiceConfig) -> bool {
    &&& c.service_name@ == "LockinService"@
    &&& c.display_name@ == "Lockin - Application Lock Service"@
    &&& c.description@
        == "Enforces application locks and prevents specified apps from running until lock expires"@
}

impl Default for WindowsServiceConfig {
    fn default() -> (c: Self)
        ensures
            is_default_config(c),
    {
        WindowsServiceConfig {
            service_name: String::from_str("LockinService"),
            display_name: String::from_str("Lockin - Application Lock Service"),
            description: String::from_str(
                "Enforces application locks and prevents specified apps from running until lock expires",
            ),
        }
    }
}

/// Control state of the service.
#[derive(Debug, Clone, Copy, PartialEq, Eq, Structural)]
pub enum ServiceState {
    Stopped,
    Running,
    Paused,
}

/// A control request to the service.
#[derive(Debug, Clone, Copy, PartialEq, Eq, Structural)]
pub enum ServiceControl {
    Start,
    Pause,
    Resume,
    Stop,
}

/// The state a control request asks for.
pub open spec fn requested_state(control: ServiceControl) -> ServiceState {
    match control {
        ServiceControl::Start => ServiceState::Running,
        ServiceControl::Pause => ServiceState::Paused,
        ServiceControl::Resume => ServiceState::Running,
        ServiceControl::Stop => ServiceState::Stopped,
    }
}

/// A control request applies in state `from`: start when stopped, pause when
/// running, resume when paused, stop when running or paused.
pub open spec fn applies(from: ServiceState, control: ServiceControl) -> bool {
    match control {
        ServiceControl::Start => from == ServiceState::Stopped,
        ServiceControl::Pause => from == ServiceState::Running,
        ServiceControl::Resume => from == ServiceState::Paused,
        ServiceControl::Stop => from != ServiceState::Stopped,
    }
}

/// Manages the service's configuration and control state.
#[derive(Debug)]
pub struct ServiceManager {
    config: WindowsServiceConfig,
    state: ServiceState,
}

impl ServiceManager {
    /// The service's current control state.
    pub closed spec fn state_spec(&self) -> ServiceState {
        self.state
    }

    /// The service's configuration.
    pub closed spec fn config_spec(&self) -> WindowsServiceConfig {
        self.config
    }

    /// A manager with the default configuration, stopped.
    pub fn new() -> (r: ServiceResult<Self>)
        ensures
            r matches Ok(m) && m.state_spec() == ServiceState::Stopped && is_default_config(m.config_spec()),
    {
        Ok(ServiceManager { config: WindowsServiceConfig::default(), state: ServiceState::Stopped })
    }

    /// A manager with configuration `config`, stopped.
    pub fn with_config(config: WindowsServiceConfig) -> (r: ServiceResult<Self>)
        ensures
            r matches Ok(m) && m.state_spec() == ServiceState::Stopped && m.config_spec() == config,
    {
        Ok(ServiceManager { config, state: ServiceState::Stopped })
    }

    /// Registers the service with the operating system (not yet wired to the
    /// service control manager: it succeeds without effect).
    pub fn register(&self) -> (r: ServiceResult<()>)
        ensures
            r is Ok,
    {
        Ok(())
    }

    /// Removes the service registration (not yet wired: it succeeds without effect).
    pub fn unregister(&self) -> (r: ServiceResult<()>)
        ensures
            r is Ok,
    {
        Ok(())
    }

    /// Sets up the handler for service control requests (not yet wired: it succeeds without effect).
    pub fn setup_control_handler(&self) -> (r: ServiceResult<()>)
        ensures
            r is Ok,
    {
        Ok(())
    }

    /// The service configuration.
    pub fn config(&self) -> (c: &WindowsServiceConfig)
        ensures
            *c == self.config_spec(),
    {
        &self.config
    }

    /// The current control state.
    pub fn get_state(&self) -> (r: ServiceResult<ServiceState>)
        ensures
            r == Ok::<ServiceState, ServiceError>(self.state_spec()),
    {
        Ok(self.state)
    }

    /// Applies control request `control` when it applies in the current state
    /// (see [`applies`]); otherwise fails with `InvalidStateTransition` and changes nothing.
    pub fn control(&mut self, control: ServiceControl) -> (r: ServiceResult<()>)
        ensures
            final(self).config_spec() == old(self).config_spec(),
            applies(old(self).state_spec(), control) ==> r is Ok,
            applies(old(self).state_spec(), control) ==> final(self).state_spec() == requested_state(control),
            !applies(old(self).state_spec(), control) ==> final(self).state_spec() == old(self).state_spec(),
            !applies(old(self).state_spec(), control) ==> (r matches Err(
                ServiceError::InvalidStateTransition { from, to },
            ) && from == old(self).state_spec() && to == requested_state(control)),
    {
        let (ok, target) = match control {
            ServiceControl::Start => (self.state == ServiceState::Stopped, ServiceState::Running),
            ServiceControl::Pause => (self.state == ServiceState::Running, ServiceState::Paused),
            ServiceControl::Resume => (self.state == ServiceState::Paused, ServiceState::Running),
            ServiceControl::Stop => (self.state != ServiceState::Stopped, ServiceState::Stopped),
        };
        if ok {
            self.state = target;
            Ok(())
        } else {
            Err(ServiceError::InvalidStateTransition { from: self.state, to: target })
        }
    }

    /// Starts a stopped service.
    pub fn start_service(&mut self) -> (r: ServiceResult<()>)
        ensures
            final(self).config_spec() == old(self).config_spec(),
            applies(old(self).state_spec(), ServiceControl::Start) ==> (r is Ok && final(self).state_spec()
                == ServiceState::Running),
            !applies(old(self).state_spec(), ServiceControl::Start) ==> (r is Err && final(self).state_spec()
                == old(self).state_spec()),
    {
        self.control(ServiceControl::Start)
    }

    /// Pauses a running service.
    pub fn pause_service(&mut self) -> (r: ServiceResult<()>)
        ensures
            final(self).config_spec() == old(self).config_spec(),
            applies(old(self).state_spec(), ServiceControl::Pause) ==> (r is Ok && final(self).state_spec()
                == ServiceState::Paused),
            !applies(old(self).state_spec(), ServiceControl::Pause) ==> (r is Err && final(self).state_spec()
                == old(self).state_spec()),
    {
        self.control(ServiceControl::Pause)
    }

    /// Resumes a paused service.
    pub fn resume_service(&mut self) -> (r: ServiceResult<()>)
        ensures
            final(self).config_spec() == old(self).config_spec(),
            applies(old(self).state_spec(), ServiceControl::Resume) ==> (r is Ok && final(self).state_spec()
                == ServiceState::Running),
            !applies(old(self).state_spec(), ServiceControl::Resume) ==> (r is Err && final(self).state_spec()
                == old(self).state_spec()),
    {
        self.control(ServiceControl::Resume)
    }

    /// Stops a running or paused service.
    pub fn stop_service(&mut self) -> (r: ServiceResult<()>)
        ensures
            final(self).config_spec() == old(self).config_spec(),
            applies(old(self).state_spec(), ServiceControl::Stop) ==> (r is Ok && final(self).state_spec()
                == ServiceState::Stopped),
            !applies(old(self).state_spec(), ServiceControl::Stop) ==> (r is Err && final(self).state_spec()
                == old(self).state_spec()),
    {
        self.control(ServiceControl::Stop)
    }
}

impl Default for ServiceManager {
    fn default() -> (m: Self)
        ensures
            m.state_spec() == ServiceState::Stopped,
            is_default_config(m.config_spec()),
    {
        ServiceManager { config: WindowsServiceConfig::default(), state: ServiceState::Stopped }
    }
}

} // verus!
