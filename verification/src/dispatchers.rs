//! The dispatcher: owns filesystem observation for one project and turns raw
//! OS-level notifications into observed events.
//!
//! The observation task itself (watching the disk, reading changed files)
//! runs outside the library and feeds `observe` plain values. The dispatcher
//! classifies each raw notification: version-control-internal churn is
//! filtered out before it can reach delta computation, except the head file,
//! whose change signals a session boundary.

use vstd::prelude::*;

use vstd::utf8::encode_utf8;

use crate::events::Event;

verus! {

/// The UTF-8 bytes of the version-control metadata directory prefix,
/// ".git/".
pub open spec fn git_dir_prefix() -> Seq<u8> {
    seq![46u8, 103u8, 105u8, 116u8, 47u8]
}

/// The UTF-8 bytes of the head file's path, ".git/HEAD".
pub open spec fn head_file_bytes() -> Seq<u8> {
    seq![46u8, 103u8, 105u8, 116u8, 47u8, 72u8, 69u8, 65u8, 68u8]
}

/// A path inside the version-control metadata directory.
pub open spec fn is_internal_path(p: Seq<char>) -> bool {
    encode_utf8(p).len() >= 5 && encode_utf8(p).subrange(0, 5) == git_dir_prefix()
}

/// The path whose mutation signals a head move.
pub open spec fn is_head_path(p: Seq<char>) -> bool {
    encode_utf8(p) == head_file_bytes()
}

/// Owns live observation of one project root.
pub struct Dispatcher {
    /// The project whose root is observed.
    pub project_id: String,
    /// The observed root.
    pub project_path: String,
    /// Set once termination was requested; a stopped dispatcher publishes
    /// nothing.
    pub stopped: bool,
    /// How many times termination was requested.
    pub stop_requests: Ghost<nat>,
}

impl Dispatcher {
    /// A live dispatcher for the given project.
    pub fn new(project_id: String, project_path: String) -> (r: Dispatcher)
        ensures
            r.project_id@ == project_id@,
            r.project_path@ == project_path@,
            !r.stopped,
            r.stop_requests@ == 0,
    {
        Dispatcher { project_id, project_path, stopped: false, stop_requests: Ghost(0) }
    }

    /// Classifies one raw filesystem notification. While live, every
    /// mutation that is not version-control-internal noise yields an
    /// observed event; the head file yields a head-move event; everything
    /// else under the metadata directory is filtered out.
    pub fn observe(&self, path: String, content: Vec<u8>) -> (r: Option<Event>)
        ensures
            self.stopped ==> r is None,
            !self.stopped && is_head_path(path@) ==> r == Some(
                Event::HeadChange { head: content },
            ),
            !self.stopped && is_internal_path(path@) && !is_head_path(path@) ==> r is None,
            !self.stopped && !is_internal_path(path@) ==> r == Some(
                Event::FileChange { path, content },
            ),
    {
        if self.stopped {
            return None;
        }
        let b = path.as_str().as_bytes();
        proof {
            assert(b@ == encode_utf8(path@));
        }
        if b.len() == 9 && b[0] == 46 && b[1] == 103 && b[2] == 105 && b[3] == 116 && b[4] == 47
            && b[5] == 72 && b[6] == 69 && b[7] == 65 && b[8] == 68 {
            proof {
                assert(b@ =~= head_file_bytes());
                assert(b@.subrange(0, 5) =~= git_dir_prefix());
            }
            Some(Event::HeadChange { head: content })
        } else if b.len() >= 5 && b[0] == 46 && b[1] == 103 && b[2] == 105 && b[3] == 116
            && b[4] == 47 {
            proof {
                assert(b@.subrange(0, 5) =~= git_dir_prefix());
                assert(b@ != head_file_bytes());
            }
            None
        } else {
            proof {
                if is_internal_path(path@) {
                    assert(b@[0] == git_dir_prefix()[0]);
                    assert(b@[1] == git_dir_prefix()[1]);
                    assert(b@[2] == git_dir_prefix()[2]);
                    assert(b@[3] == git_dir_prefix()[3]);
                    assert(b@[4] == git_dir_prefix()[4]);
                }
            }
            Some(Event::FileChange { path, content })
        }
    }

    /// An explicit or timer-driven flush request. While live it yields the
    /// flush event; a stopped dispatcher publishes nothing.
    pub fn tick(&self) -> (r: Option<Event>)
        ensures
            self.stopped ==> r is None,
            !self.stopped ==> r == Some(Event::Flush),
    {
        if self.stopped {
            None
        } else {
            Some(Event::Flush)
        }
    }

    /// Requests termination of observation. Idempotent: the dispatcher is
    /// stopped afterwards no matter how often this was called before, and it
    /// never deadlocks or fails.
    pub fn stop(&mut self)
        ensures
            final(self).stopped,
            final(self).project_id == old(self).project_id,
            final(self).project_path == old(self).project_path,
            final(self).stop_requests@ == old(self).stop_requests@ + 1,
    {
        self.stopped = true;
        proof {
            self.stop_requests@ = self.stop_requests@ + 1;
        }
    }
}

} // verus!
