//! How the end of a connection of a client is taken.

use vstd::prelude::*;

verus! {

/// What Windows calls a connection that the other side reset.
pub const WINDOWS_CONNECTION_RESET: i32 = 10054;

/// An I/O error.
#[derive(Clone, Copy, Debug, PartialEq, Eq, Structural)]
pub struct IoFault {
    /// Whether its kind is that of a connection that the other side reset.
    pub reset: bool,
    /// The number that the operating system gave it, where it gave one.
    pub raw_os_error: Option<i32>,
}

/// The first I/O error of a chain of causes, from the outermost error on. A cause that is no I/O
/// error is `None`.
pub open spec fn first_io(chain: Seq<Option<IoFault>>) -> Option<IoFault>
    decreases chain.len(),
{
    if chain.len() == 0 {
        None
    } else if chain[0] is Some {
        chain[0]
    } else {
        first_io(chain.drop_first())
    }
}

/// The first I/O error of a chain of causes.
pub fn find_io_error(chain: &Vec<Option<IoFault>>) -> (r: Option<IoFault>)
    ensures
        r == first_io(chain@),
{
    let mut i: usize = 0;
    proof {
        assert(chain@.skip(0) =~= chain@);
    }
    while i < chain.len()
        invariant
            i <= chain@.len(),
            first_io(chain@.skip(i as int)) == first_io(chain@),
        decreases chain@.len() - i,
    {
        proof {
            assert(chain@.skip(i as int)[0] == chain@[i as int]);
            assert(chain@.skip(i as int).drop_first() =~= chain@.skip(i as int + 1));
        }
        if chain[i].is_some() {
            return chain[i];
        }
        i = i + 1;
    }
    None
}

/// Whether an I/O error says that the client reset the connection.
pub open spec fn is_reset(fault: IoFault) -> bool {
    fault.reset || fault.raw_os_error == Some(WINDOWS_CONNECTION_RESET)
}

/// Whether an error says that the client reset the connection, which clients do when they switch
/// or restart: then it is no fault.
pub fn is_client_disconnect_reset(chain: &Vec<Option<IoFault>>) -> (r: bool)
    ensures
        r == (first_io(chain@) matches Some(fault) && is_reset(fault)),
{
    match find_io_error(chain) {
        Some(fault) => fault.reset || (match fault.raw_os_error {
            Some(n) => n == WINDOWS_CONNECTION_RESET,
            None => false,
        }),
        None => false,
    }
}

/// However many other errors an I/O error is wrapped in, it decides.
pub proof fn law_wrapping_does_not_matter(wrappers: Seq<Option<IoFault>>, chain: Seq<
    Option<IoFault>,
>)
    requires
        forall|i: int| 0 <= i < wrappers.len() ==> (#[trigger] wrappers[i]) is None,
    ensures
        first_io(wrappers + chain) == first_io(chain),
    decreases wrappers.len(),
{
    if wrappers.len() == 0 {
        assert(wrappers + chain =~= chain);
    } else {
        assert((wrappers + chain)[0] == wrappers[0]);
        assert((wrappers + chain).drop_first() =~= wrappers.drop_first() + chain);
        law_wrapping_does_not_matter(wrappers.drop_first(), chain);
    }
}

/// The first I/O error of a chain decides, whatever it is wrapped in and whatever caused it; it
/// says that the client went away if its kind does, or if its number is the one that Windows gives
/// to that. A chain without an I/O error does not say so.
pub proof fn law_first_io_error_decides(
    wrappers: Seq<Option<IoFault>>,
    fault: IoFault,
    causes: Seq<Option<IoFault>>,
)
    requires
        forall|i: int| 0 <= i < wrappers.len() ==> (#[trigger] wrappers[i]) is None,
    ensures
        first_io(wrappers + (seq![Some(fault)] + causes)) == Some(fault),
        first_io(wrappers) is None,
        is_reset(fault) <==> fault.reset || fault.raw_os_error == Some(10054i32),
{
    law_wrapping_does_not_matter(wrappers, seq![Some(fault)] + causes);
    assert((seq![Some(fault)] + causes)[0] == Some(fault));
    law_wrapping_does_not_matter(wrappers, Seq::empty());
    assert(wrappers + Seq::<Option<IoFault>>::empty() =~= wrappers);
}

} // verus!
