//! What the HTTP servers serve: the index page and the stream of images.

pub mod data;
pub mod stream;

pub use data::HttpServerData;

use vstd::prelude::*;

verus! {

/// Stack that the handlers of the requests need, in bytes.
pub const STACK_SIZE: usize = 1_000;

/// The status of a response that went well.
pub const OK_RESPONSE: u16 = 200;

/// What names the requests that a server answers.
pub trait HttpRequest {
    /// What the handler of a request is given to work with.
    type Data;
}

/// A server on which handlers of requests can be registered.
pub trait HttpServer {
    /// What registering can fail with.
    type Error;

    /// What names the requests of this server.
    type HttpRequest: HttpRequest;

    /// Registers the handler of `request`, which will work with `data`.
    fn register_request(
        &mut self,
        request: Self::HttpRequest,
        data: <Self::HttpRequest as HttpRequest>::Data,
    ) -> Result<(), Self::Error>;
}

/// A server together with the list of the requests that it has taken
/// through this registrar, in the order in which it took them. A request
/// counts as taken where the server said so.
pub struct Registrar<S: HttpServer> {
    server: S,
    taken: Ghost<Seq<S::HttpRequest>>,
}

impl<S: HttpServer> Registrar<S> {
    /// The requests that the server has taken through this registrar.
    pub closed spec fn registered(&self) -> Seq<S::HttpRequest> {
        self.taken@
    }

    /// The server itself.
    pub closed spec fn spec_server(&self) -> S {
        self.server
    }

    /// A registrar for `server`, through which nothing was registered yet.
    pub fn new(server: S) -> (r: Self)
        ensures
            r.registered() == Seq::<S::HttpRequest>::empty(),
            r.spec_server() == server,
    {
        Registrar { server, taken: Ghost(Seq::empty()) }
    }

    /// Registers the handler of `request` with the server and returns what
    /// the server said. A request that the server took joins the list; a
    /// refused one leaves the list as it was.
    pub fn register_request(
        &mut self,
        request: S::HttpRequest,
        data: <S::HttpRequest as HttpRequest>::Data,
    ) -> (r: Result<(), S::Error>)
        ensures
            r is Ok ==> final(self).registered() == old(self).registered().push(request),
            r is Err ==> final(self).registered() == old(self).registered(),
    {
        let ghost asked = request;
        let registered = self.server.register_request(request, data);
        if registered.is_ok() {
            proof {
                self.taken@ = self.taken@.push(asked);
            }
        }
        registered
    }

    /// Gives the server back.
    pub fn into_server(self) -> (r: S)
        ensures
            r == self.spec_server(),
    {
        self.server
    }
}

impl HttpRequest for PossibleHttpRequest {
    type Data = ();
}

/// The requests that the main server answers.
#[derive(Clone, Copy, Debug, PartialEq, Eq, Structural)]
pub enum PossibleHttpRequest {
    /// The index page.
    Index,
}

impl PossibleHttpRequest {
    /// The path of the request.
    pub fn uri(&self) -> (r: &'static str)
        ensures
            r@ == "/"@,
    {
        "/"
    }

    /// Every request of the main server, each once.
    pub open spec fn spec_all() -> Seq<PossibleHttpRequest> {
        seq![PossibleHttpRequest::Index]
    }

    /// Every request of the main server, each once.
    pub fn all() -> (r: Vec<PossibleHttpRequest>)
        ensures
            r@ == PossibleHttpRequest::spec_all(),
    {
        vec![PossibleHttpRequest::Index]
    }
}

/// How many handlers the main server has to hold.
pub fn http_request_handlers_count() -> (r: usize)
    ensures
        r == 1,
{
    1
}

/// The header that lets pages of any origin read a response.
pub fn allow_any_origin() -> (r: (&'static str, &'static str))
    ensures
        r.0@ == "Access-Control-Allow-Origin"@,
        r.1@ == "*"@,
{
    ("Access-Control-Allow-Origin", "*")
}

/// Which of the two servers refused a handler, and why.
#[derive(Debug)]
pub enum RegisterError<E, StreamE> {
    Main(E),
    Stream(StreamE),
}

/// What registering a handler on the main server comes to: success, or
/// the refusal as that of the main server.
pub fn registered_on_main<E, StreamE>(registered: Result<(), E>) -> (r: Result<
    (),
    RegisterError<E, StreamE>,
>)
    ensures
        r == match registered {
            Ok(()) => Ok::<(), RegisterError<E, StreamE>>(()),
            Err(error) => Err(RegisterError::Main(error)),
        },
{
    match registered {
        Ok(()) => Ok(()),
        Err(error) => Err(RegisterError::Main(error)),
    }
}

/// What registering a handler on the stream server comes to: success, or
/// the refusal as that of the stream server.
pub fn registered_on_stream<E, StreamE>(registered: Result<(), StreamE>) -> (r: Result<
    (),
    RegisterError<E, StreamE>,
>)
    ensures
        r == match registered {
            Ok(()) => Ok::<(), RegisterError<E, StreamE>>(()),
            Err(error) => Err(RegisterError::Stream(error)),
        },
{
    match registered {
        Ok(()) => Ok(()),
        Err(error) => Err(RegisterError::Stream(error)),
    }
}

/// Registers the handlers of all requests: first those of the main server,
/// then those of the stream server, each of which is given a handle on
/// `data`. Stops at the first handler that a server refuses, and says which
/// server it was.
///
/// So on success each server has taken all its requests, each once and in
/// their order; after a refusal the server that refused has taken those
/// before the refused one and no more, and the stream server has taken
/// none where the main server refused.
pub fn register_all_requests<
    S: HttpServer<Error = E, HttpRequest = PossibleHttpRequest>,
    StreamS: HttpServer<Error = StreamE, HttpRequest = stream::PossibleHttpRequest>,
    E,
    StreamE,
>(
    http_server: &mut Registrar<S>,
    stream_http_server: &mut Registrar<StreamS>,
    data: <stream::PossibleHttpRequest as HttpRequest>::Data,
) -> (r: Result<(), RegisterError<E, StreamE>>)
    ensures
        r is Ok ==> {
            &&& final(http_server).registered() == old(http_server).registered()
                + PossibleHttpRequest::spec_all()
            &&& final(stream_http_server).registered() == old(stream_http_server).registered()
                + stream::PossibleHttpRequest::spec_all()
        },
        r matches Err(RegisterError::Main(_)) ==> {
            &&& exists|taken: int|
                0 <= taken < PossibleHttpRequest::spec_all().len()
                    && final(http_server).registered() == old(http_server).registered()
                    + #[trigger] PossibleHttpRequest::spec_all().take(taken)
            &&& final(stream_http_server).registered() == old(stream_http_server).registered()
        },
        r matches Err(RegisterError::Stream(_)) ==> {
            &&& final(http_server).registered() == old(http_server).registered()
                + PossibleHttpRequest::spec_all()
            &&& exists|taken: int|
                0 <= taken < stream::PossibleHttpRequest::spec_all().len()
                    && final(stream_http_server).registered() == old(stream_http_server).registered()
                    + #[trigger] stream::PossibleHttpRequest::spec_all().take(taken)
        },
{
    let requests = PossibleHttpRequest::all();
    let mut i: usize = 0;
    while i < requests.len()
        invariant
            i <= requests@.len(),
            requests@ == PossibleHttpRequest::spec_all(),
            http_server.registered() == old(http_server).registered() + requests@.take(i as int),
            stream_http_server.registered() == old(stream_http_server).registered(),
        decreases requests@.len() - i,
    {
        let registered = http_server.register_request(requests[i], ());
        match registered_on_main(registered) {
            Ok(()) => {},
            Err(error) => {
                return Err(error);
            },
        }
        assert(requests@.take(i + 1) =~= requests@.take(i as int).push(requests@[i as int]));
        assert(http_server.registered() =~= old(http_server).registered() + requests@.take(
            i + 1,
        ));
        i += 1;
    }
    assert(requests@.take(i as int) =~= requests@);
    let stream_requests = stream::PossibleHttpRequest::all();
    let mut j: usize = 0;
    while j < stream_requests.len()
        invariant
            j <= stream_requests@.len(),
            stream_requests@ == stream::PossibleHttpRequest::spec_all(),
            http_server.registered() == old(http_server).registered()
                + PossibleHttpRequest::spec_all(),
            stream_http_server.registered() == old(stream_http_server).registered()
                + stream_requests@.take(j as int),
        decreases stream_requests@.len() - j,
    {
        let registered = stream_http_server.register_request(stream_requests[j], data.clone());
        match registered_on_stream(registered) {
            Ok(()) => {},
            Err(error) => {
                return Err(error);
            },
        }
        assert(stream_requests@.take(j + 1) =~= stream_requests@.take(j as int).push(
            stream_requests@[j as int],
        ));
        assert(stream_http_server.registered() =~= old(stream_http_server).registered()
            + stream_requests@.take(j + 1));
        j += 1;
    }
    assert(stream_requests@.take(j as int) =~= stream_requests@);
    Ok(())
}

} // verus!
