//! The globals that a compositor announces, told apart by their interface name.

use vstd::prelude::*;
use vstd::utf8::encode_utf8_decode_utf8;

verus! {

/// What a session does with an announced global.
#[derive(Clone, Copy, Debug, PartialEq, Eq, Structural)]
pub enum GlobalKind {
    /// The shared-memory factory, `wl_shm`.
    SharedMemory,
    /// The screencopy manager, `zwlr_screencopy_manager_v1`.
    ScreencopyManager,
    /// An output, `wl_output`.
    Output,
    /// Any other global: a session has no use for it.
    Other,
}

/// The kind of the global that is announced under the interface name `interface`.
pub open spec fn kind_of(interface: Seq<char>) -> GlobalKind {
    if interface == "wl_shm"@ {
        GlobalKind::SharedMemory
    } else if interface == "zwlr_screencopy_manager_v1"@ {
        GlobalKind::ScreencopyManager
    } else if interface == "wl_output"@ {
        GlobalKind::Output
    } else {
        GlobalKind::Other
    }
}

/// The three interface names that a session knows are told apart.
pub proof fn lemma_known_interfaces()
    ensures
        kind_of("wl_shm"@) == GlobalKind::SharedMemory,
        kind_of("zwlr_screencopy_manager_v1"@) == GlobalKind::ScreencopyManager,
        kind_of("wl_output"@) == GlobalKind::Output,
{
    reveal_strlit("wl_shm");
    reveal_strlit("zwlr_screencopy_manager_v1");
    reveal_strlit("wl_output");
    assert("wl_shm"@.len() == 6);
    assert("zwlr_screencopy_manager_v1"@.len() == 26);
    assert("wl_output"@.len() == 9);
}

/// Whether two strings hold the same characters.
#[verifier::loop_isolation(false)]
pub fn same_text(a: &str, b: &str) -> (same: bool)
    ensures
        same == (a@ == b@),
{
    let x: &[u8] = a.as_bytes();
    let y: &[u8] = b.as_bytes();
    proof {
        // Strings with the same bytes hold the same characters.
        encode_utf8_decode_utf8(a@);
        encode_utf8_decode_utf8(b@);
    }
    if x.len() != y.len() {
        return false;
    }
    let mut i: usize = 0;
    while i < x.len()
        invariant
            i <= x.len(),
            x.len() == y.len(),
            forall|j: int| 0 <= j < i ==> x@[j] == y@[j],
        decreases x.len() - i,
    {
        if x[i] != y[i] {
            return false;
        }
        i += 1;
    }
    assert(x@ =~= y@);
    true
}

/// Tells the kind of a global from its interface name.
pub fn classify(interface: &str) -> (kind: GlobalKind)
    ensures
        kind == kind_of(interface@),
{
    if same_text(interface, "wl_shm") {
        GlobalKind::SharedMemory
    } else if same_text(interface, "zwlr_screencopy_manager_v1") {
        GlobalKind::ScreencopyManager
    } else if same_text(interface, "wl_output") {
        GlobalKind::Output
    } else {
        GlobalKind::Other
    }
}

} // verus!
