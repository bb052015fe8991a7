//! The service as a whole: its announcement, its control port and its admin
//! page run side by side until one of them ends.

use vstd::prelude::*;

verus! {

/// Where the admin page is served.
pub const WEB_ADMIN_ADDR: &'static str = "127.0.0.1:19092";

/// What ends the service.
pub enum ServiceEvent {
    ShutdownRequested,
    /// One of the tasks finished.
    TaskDone,
    /// One of the tasks failed, or was lost.
    TaskFailed { message: String },
}

/// How the service ends.
pub enum ServiceEnd {
    /// The other tasks are told to stop.
    Shutdown,
    /// The failure is handed on at once.
    Failed { message: String },
}

/// The first event decides. A task that fails ends the service with its message;
/// anything else has the other tasks stopped.
pub fn run(event: ServiceEvent) -> (r: ServiceEnd)
    ensures
        match event {
            ServiceEvent::TaskFailed { message } => r == (ServiceEnd::Failed { message }),
            ServiceEvent::ShutdownRequested | ServiceEvent::TaskDone => r is Shutdown,
        },
{
    match event {
        ServiceEvent::TaskFailed { message } => ServiceEnd::Failed { message },
        _ => ServiceEnd::Shutdown,
    }
}

/// The address that a browser is sent to.
pub fn admin_url() -> (r: String)
    ensures
        r@ == "http://"@ + WEB_ADMIN_ADDR@,
{
    let mut url: String = String::new();
    url.append("http://");
    url.append(WEB_ADMIN_ADDR);
    assert(url@ =~= "http://"@ + WEB_ADMIN_ADDR@);
    url
}

} // verus!
