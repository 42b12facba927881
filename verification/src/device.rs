//! The device and the handle it shares.

use crate::batch::{
    batch_of, layout, marshal, marshal_control, one_class, ExtControl, ExtControls, ExtControlsView,
};
use crate::capability::Capabilities;
use crate::control::{class_of, control_class, controls_view, Control};
use crate::enumerate::{Enumeration, EnumerationView};
use crate::error::{Error, ErrorKind, OsError};
use crate::fdset::FdSet;
use crate::fetch::{ControlFetch, FetchView};
use crate::node::{device_node, node_path};
use std::sync::Arc;
use vstd::prelude::*;

verus! {

/// `libc::O_RDWR`, the access mode that opens a file for reading and writing.
/// The platform fixes its value, of which nothing is claimed.
#[verifier::external_body]
fn access_read_write() -> (flag: i32) {
    libc::O_RDWR
}

/// `libc::O_NONBLOCK`, the status flag that opens a file in non-blocking mode.
/// The platform fixes its value, of which nothing is claimed.
#[verifier::external_body]
fn status_non_blocking() -> (flag: i32) {
    libc::O_NONBLOCK
}

/// What it takes to open a device node: its path and the flags of the open
/// call.
#[derive(Debug)]
pub struct OpenRequest {
    /// The path of the device node.
    pub path: String,
    /// The flags for the open call.
    pub flags: i32,
}

/// What an open call has come to: the descriptor it returned, or the error
/// that it, or the system for it, reported. The descriptor -1 is no
/// descriptor; the system's last error stands in for it.
pub open spec fn opened(outcome: Result<i32, OsError>, last_error: OsError) -> Result<i32, Error> {
    match outcome {
        Err(e) => Err(Error::Os(e)),
        Ok(fd) => if fd == -1 {
            Err(Error::Os(last_error))
        } else {
            Ok(fd)
        },
    }
}

impl OpenRequest {
    /// The request that opens `path` with an access mode and a status flag.
    pub fn assemble(path: String, access: i32, status: i32) -> (request: OpenRequest)
        ensures
            request.path@ == path@,
            request.flags == access | status,
    {
        OpenRequest { path, flags: access | status }
    }

    /// Makes a device of what the open call returned.
    ///
    /// `outcome` is the result of the call to open, and `last_error` the last
    /// error of the operating system as it stood right after that call. A
    /// failed call gives its error; a call that returned the descriptor -1
    /// gives the last error; any other descriptor gives a device whose handle
    /// owns it, with a readiness set that holds it alone.
    pub fn complete(self, outcome: Result<i32, OsError>, last_error: OsError) -> (result: Result<
        Device,
        Error,
    >)
        ensures
            match result {
                Ok(device) => opened(outcome, last_error) == Ok::<_, Error>(
                    device.handle_spec().descriptor(),
                ),
                Err(e) => opened(outcome, last_error) == Err::<i32, _>(e),
            },
    {
        let fd = match outcome {
            Ok(fd) => fd,
            Err(e) => {
                return Err(Error::Os(e));
            },
        };
        if fd == -1 {
            return Err(Error::Os(last_error));
        }
        let mut fd_set = FdSet::new();
        fd_set.set(fd);
        assert(fd_set@ =~= set![fd]);
        Ok(Device { handle: Arc::new(Handle { fd, fd_set }) })
    }
}

/// What a read or a write has come to, given the number that the system call
/// returned: -1 stands for failure and gives the system's last error; any
/// other number is the count of bytes moved, taken as an unsigned number.
pub open spec fn transferred(returned: isize, last_error: OsError) -> Result<usize, Error> {
    if returned == -1 {
        Err(Error::Os(last_error))
    } else {
        Ok(returned as usize)
    }
}

fn transfer_result(returned: isize, last_error: OsError) -> (result: Result<usize, Error>)
    ensures
        result == transferred(returned, last_error),
{
    if returned == -1 {
        Err(Error::Os(last_error))
    } else {
        Ok(#[verifier::truncate] (returned as usize))
    }
}

/// The open connection to a device: its file descriptor, and the readiness set
/// that holds exactly that descriptor.
pub struct Handle {
    fd: i32,
    fd_set: FdSet,
}

impl Handle {
    #[verifier::type_invariant]
    spec fn well_formed(&self) -> bool {
        self.fd != -1 && self.fd_set@ == set![self.fd]
    }

    /// The file descriptor that the handle owns.
    pub closed spec fn descriptor(&self) -> i32 {
        self.fd
    }

    /// Returns the raw file descriptor. It is never the invalid descriptor -1.
    pub fn fd(&self) -> (fd: i32)
        ensures
            fd == self.descriptor(),
            fd != -1,
    {
        proof {
            use_type_invariant(self);
        }
        self.fd
    }

    /// Returns a copy of the readiness set, which holds the handle's
    /// descriptor and nothing else.
    pub fn fd_set(&self) -> (set: FdSet)
        ensures
            set@ == set![self.descriptor()],
    {
        proof {
            use_type_invariant(self);
        }
        self.fd_set.clone()
    }
}

/// A capture device: a shared reference to the handle of its open connection.
pub struct Device {
    handle: Arc<Handle>,
}

impl Device {
    /// The handle that the device refers to.
    pub closed spec fn handle_spec(&self) -> Handle {
        *self.handle
    }

    /// Returns another reference to the device's handle. The handle itself is
    /// not copied: the reference leads to the same descriptor.
    pub fn handle(&self) -> (handle: Arc<Handle>)
        ensures
            *handle == self.handle_spec(),
    {
        self.handle.clone()
    }

    /// Starts opening the device with the given index, counted from zero: the
    /// node is `/dev/video` followed by the index, opened for reading and
    /// writing in non-blocking mode.
    pub fn new(index: usize) -> (request: OpenRequest)
        ensures
            request.path@ == node_path(index as nat),
    {
        OpenRequest::assemble(device_node(index), access_read_write(), status_non_blocking())
    }

    /// Starts opening the device node at `path`, for reading and writing in
    /// non-blocking mode.
    pub fn with_path(path: String) -> (request: OpenRequest)
        ensures
            request.path@ == path@,
    {
        OpenRequest::assemble(path, access_read_write(), status_non_blocking())
    }

    /// Takes the driver's reply to the query for the device's capabilities:
    /// the capabilities as they came, or the error as it came.
    pub fn query_caps(&self, reply: Result<Capabilities, OsError>) -> (result: Result<
        Capabilities,
        Error,
    >)
        ensures
            result == (match reply {
                Ok(caps) => Ok::<Capabilities, Error>(caps),
                Err(e) => Err::<Capabilities, Error>(Error::Os(e)),
            }),
    {
        match reply {
            Ok(caps) => Ok(caps),
            Err(e) => Err(Error::Os(e)),
        }
    }

    /// Starts the enumeration of the controls that the device supports.
    pub fn query_controls(&self) -> (enumeration: Enumeration)
        ensures
            enumeration@ == EnumerationView::initial(),
    {
        Enumeration::new()
    }

    /// Starts reading the current value of the control `id`.
    pub fn control(&self, id: u32) -> (fetch: ControlFetch)
        ensures
            fetch@ == FetchView::initial(id),
    {
        ControlFetch::new(id)
    }

    /// Takes the number that a read from the device returned, with the
    /// system's last error as it stood right after the call.
    pub fn read(&self, returned: isize, last_error: OsError) -> (result: Result<usize, Error>)
        ensures
            result == transferred(returned, last_error),
    {
        transfer_result(returned, last_error)
    }

    /// Takes the number that a write to the device returned, with the
    /// system's last error as it stood right after the call. The count may be
    /// less than what was offered: it is what the system accepted.
    pub fn write(&self, returned: isize, last_error: OsError) -> (result: Result<usize, Error>)
        ensures
            result == transferred(returned, last_error),
    {
        transfer_result(returned, last_error)
    }

    /// Writes go to the device at once, so there is never anything to flush.
    pub fn flush(&self) -> (result: Result<(), Error>)
        ensures
            result is Ok,
    {
        Ok(())
    }

    /// Lays a batch of controls out for one atomic update.
    ///
    /// An empty batch is refused, and so is a batch whose controls do not all
    /// belong to one class; in both cases nothing is handed back that could be
    /// sent to the kernel. Any other batch gives one request that holds every
    /// control in order, under the class they share.
    pub fn set_controls(&self, ctrls: Vec<Control>) -> (result: Result<ExtControls, Error>)
        ensures
            match result {
                Ok(batch) => layout(controls_view(ctrls@)) == Ok::<_, Error>(batch@),
                Err(e) => layout(controls_view(ctrls@)) == Err::<ExtControlsView, _>(e),
            },
            ctrls@.len() == 0 ==> (result matches Err(e) && e == Error::EmptyBatch),
            ctrls@.len() > 0 && !one_class(controls_view(ctrls@)) ==> (result matches Err(e) && e
                == Error::MixedClasses),
            result is Ok <==> ctrls@.len() > 0 && one_class(controls_view(ctrls@)),
            result matches Err(e) ==> e.kind_spec() == ErrorKind::InvalidInput,
    {
        let ghost views = controls_view(ctrls@);
        let count: u32 = #[verifier::truncate] (ctrls.len() as u32);
        if ctrls.len() == 0 {
            return Err(Error::EmptyBatch);
        }
        let mut control_list: Vec<ExtControl> = Vec::new();
        let mut class: Option<u32> = None;
        let mut i: usize = 0;
        while i < ctrls.len()
            invariant
                i <= ctrls.len(),
                views == controls_view(ctrls@),
                control_list@.len() == i,
                forall|k: int| 0 <= k < i ==> control_list@[k] == marshal(#[trigger] views[k]),
                i == 0 ==> class is None,
                i > 0 ==> class == Some(class_of(views[0].id)),
                forall|k: int| 0 <= k < i ==> class_of(#[trigger] views[k].id) == class_of(views[0].id),
            decreases ctrls.len() - i,
        {
            let ctrl = &ctrls[i];
            assert(views[i as int] == ctrl@);
            let this_class = control_class(ctrl.id);
            class = match class {
                Some(c) => {
                    if c != this_class {
                        assert(!one_class(views)) by {
                            assert(class_of(views[0].id) != class_of(views[i as int].id));
                        }
                        return Err(Error::MixedClasses);
                    } else {
                        Some(c)
                    }
                },
                None => Some(this_class),
            };
            control_list.push(marshal_control(ctrl));
            i += 1;
        }
        let which = match class {
            Some(class) => class,
            None => {
                return Err(Error::UnknownClass);
            },
        };
        assert(one_class(views));
        assert(control_list@ =~= views.map_values(|c: crate::control::ControlView| marshal(c)));
        let batch = ExtControls { which, count, controls: control_list, values: ctrls };
        assert(batch@ == batch_of(views));
        Ok(batch)
    }

    /// Lays a single control out for an update: a batch of one.
    pub fn set_control(&self, ctrl: Control) -> (result: Result<ExtControls, Error>)
        ensures
            result matches Ok(batch) && batch@ == batch_of(seq![ctrl@]),
    {
        let mut ctrls: Vec<Control> = Vec::new();
        ctrls.push(ctrl);
        assert(controls_view(ctrls@) =~= seq![ctrl@]);
        assert(one_class(seq![ctrl@]));
        self.set_controls(ctrls)
    }
}

} // verus!
