//! The pool manager adapter: the connect / validate / retire hooks that an
//! external connection pool calls, each one a thin delegation with the
//! delegated contract preserved.

use vstd::prelude::*;
use crate::builder::MakeThriftConnection;
use crate::client::ThriftConnection;

verus! {

/// Adapts a connection maker `T` to the hook surface a connection pool
/// expects: `connect`, `is_valid` and `has_broken`.
///
/// The adapter holds no mutable state, only the maker, so any number of
/// concurrent connection attempts may run through one adapter without
/// sharing anything they could race on.
pub struct ThriftConnectionManager<T>(T);

impl<T> ThriftConnectionManager<T> {
    /// The connection maker this adapter delegates to.
    pub closed spec fn maker(&self) -> T {
        self.0
    }

    /// Wrap a connection maker.
    pub fn new(make_thrift_connection: T) -> (m: Self)
        ensures
            m.maker() == make_thrift_connection,
    {
        ThriftConnectionManager(make_thrift_connection)
    }
}

impl<T: Clone> Clone for ThriftConnectionManager<T> {
    fn clone(&self) -> Self {
        ThriftConnectionManager(self.0.clone())
    }
}

impl<T: MakeThriftConnection> ThriftConnectionManager<T> {
    /// Connect hook: delegates to the maker, surfacing its result
    /// unchanged.  Every connection handed back satisfies whatever the
    /// maker promises of its connections.
    pub fn connect(&self) -> (r: Result<T::Output, T::Error>)
        ensures
            (r matches Ok(conn) ==> self.maker().connection_ok(conn)),
    {
        self.0.make_thrift_connection()
    }
}

impl<T: MakeThriftConnection> ThriftConnectionManager<T> where
    T::Output: ThriftConnection<Error = T::Error>,
{
    /// Validation hook: delegates to the connection's own liveness probe
    /// and propagates its error unchanged to the pool.
    pub fn is_valid(&self, conn: &mut T::Output) -> (r: Result<(), T::Error>)
        ensures
            r.is_ok() == old(conn).valid(),
    {
        conn.is_valid()
    }

    /// Broken-check hook: delegates to the connection's own cheap check;
    /// never fails.
    pub fn has_broken(&self, conn: &mut T::Output) -> (b: bool)
        ensures
            b == old(conn).broken(),
    {
        conn.has_broken()
    }
}

} // verus!
