//! The network server side of the messages. The server implementation
//! answers asynchronously, so the arguments of each message are read from
//! the query and the buffers the sender lent before it is asked.
use vstd::prelude::*;
use crate::ipc::{KHandles, view_text, view_string};
use super::messages::{NetServerError, CreateInterfaceQueryParameters, DestroyInterfaceQueryParameters};

verus! {

/// CreateInterface: the name of the interface and the port name of its driver, read from the buffers the sender lent.
pub fn create_interface_arguments(query: &CreateInterfaceQueryParameters, handles: &KHandles) -> (r: Result<(String, String), NetServerError>)
    ensures
        !(view_text(handles@, CreateInterfaceQueryParameters::HANDLE_NAME_MOBJ as int, query.name) is Some && view_text(handles@, CreateInterfaceQueryParameters::HANDLE_DRIVER_PORT_NAME_MOBJ as int, query.driver_port_name) is Some) ==> r == Err::<(String, String), NetServerError>(NetServerError::InvalidArgument),
        (view_text(handles@, CreateInterfaceQueryParameters::HANDLE_NAME_MOBJ as int, query.name) is Some && view_text(handles@, CreateInterfaceQueryParameters::HANDLE_DRIVER_PORT_NAME_MOBJ as int, query.driver_port_name) is Some) ==> (r matches Ok(v) && v.0@ == view_text(handles@, CreateInterfaceQueryParameters::HANDLE_NAME_MOBJ as int, query.name).unwrap() && v.1@ == view_text(handles@, CreateInterfaceQueryParameters::HANDLE_DRIVER_PORT_NAME_MOBJ as int, query.driver_port_name).unwrap()),
{
        let a0 = view_string(handles, CreateInterfaceQueryParameters::HANDLE_NAME_MOBJ, query.name);
        let a1 = view_string(handles, CreateInterfaceQueryParameters::HANDLE_DRIVER_PORT_NAME_MOBJ, query.driver_port_name);
        match (a0, a1) {
            (Some(b0), Some(b1)) => Ok((b0, b1)),
            _ => Err(NetServerError::InvalidArgument),
        }
}

/// DestroyInterface: the name of the interface, read from the buffer the sender lent.
pub fn destroy_interface_arguments(query: &DestroyInterfaceQueryParameters, handles: &KHandles) -> (r: Result<String, NetServerError>)
    ensures
        !(view_text(handles@, DestroyInterfaceQueryParameters::HANDLE_NAME_MOBJ as int, query.name) is Some) ==> r == Err::<String, NetServerError>(NetServerError::InvalidArgument),
        (view_text(handles@, DestroyInterfaceQueryParameters::HANDLE_NAME_MOBJ as int, query.name) is Some) ==> (r matches Ok(v) && v@ == view_text(handles@, DestroyInterfaceQueryParameters::HANDLE_NAME_MOBJ as int, query.name).unwrap()),
{
        let a0 = view_string(handles, DestroyInterfaceQueryParameters::HANDLE_NAME_MOBJ, query.name);
        match (a0,) {
            (Some(b0),) => Ok(b0),
            _ => Err(NetServerError::InvalidArgument),
        }
}

} // verus!
