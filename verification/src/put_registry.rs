//! The names under which the programs under test are known, and the choice of
//! the one that a run drives.

use vstd::prelude::*;

verus! {

/// The name of OpenSSL 1.1.1.
pub const OPENSSL111_PUT: [char; 10] = ['O', 'P', 'E', 'N', 'S', 'S', 'L', '1', '1', '1'];

/// The name of wolfSSL 5.2.0.
pub const WOLFSSL520_PUT: [char; 10] = ['W', 'O', 'L', 'F', 'S', 'S', 'L', '5', '2', '0'];

/// The name of a client that is reached over TCP.
pub const TCP_CLIENT_PUT: [char; 10] = ['T', 'C', 'P', 'C', 'L', 'I', 'E', 'N', 'T', '_'];

/// The name of a server that is reached over TCP.
pub const TCP_SERVER_PUT: [char; 10] = ['T', 'C', 'P', 'S', 'E', 'R', 'V', 'E', 'R', '_'];

/// The name that stands for no program at all.
pub const DUMMY_PUT: [char; 10] = ['D', 'U', 'M', 'M', 'Y', 'Y', 'D', 'U', 'M', 'M'];

/// The name of a program under test: ten characters.
#[derive(Clone, Copy, Debug)]
pub struct PutName(pub [char; 10]);

/// A program under test and the options that it is started with.
#[derive(Clone, Debug)]
pub struct PutDescriptor {
    pub name: PutName,
    /// Pairs of an option's name and its value.
    pub options: Vec<(String, String)>,
}

/// The name of the program that a run drives, by the bindings that were built
/// in: OpenSSL where its binding is there, else wolfSSL where its binding is
/// there, else [`DUMMY_PUT`].
pub open spec fn current_put_name(openssl_binding: bool, wolfssl_binding: bool) -> [char; 10] {
    if openssl_binding {
        OPENSSL111_PUT
    } else if wolfssl_binding {
        WOLFSSL520_PUT
    } else {
        DUMMY_PUT
    }
}

/// Describes the program that a run drives: its name is chosen by the
/// bindings that were built in, and it has no options.
pub fn current_put(openssl_binding: bool, wolfssl_binding: bool) -> (put: PutDescriptor)
    ensures
        put.name.0 == current_put_name(openssl_binding, wolfssl_binding),
        put.options@.len() == 0,
{
    let name = if openssl_binding {
        OPENSSL111_PUT
    } else if wolfssl_binding {
        WOLFSSL520_PUT
    } else {
        DUMMY_PUT
    };
    PutDescriptor { name: PutName(name), options: Vec::new() }
}

} // verus!
