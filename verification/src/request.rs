use vstd::prelude::*;

verus! {

/// The wire image of one header line: the name, a colon and a space, the
/// value, then CR LF.
pub open spec fn header_line(name: Seq<u8>, value: Seq<u8>) -> Seq<u8> {
    name + seq![58u8, 32u8] + value + seq![13u8, 10u8]
}

/// The wire image of a header list, one line each, in caller-supplied
/// order.
pub open spec fn header_block(headers: Seq<(Seq<u8>, Seq<u8>)>) -> Seq<u8>
    decreases headers.len(),
{
    if headers.len() == 0 {
        Seq::empty()
    } else {
        header_block(headers.drop_last()) + header_line(headers.last().0, headers.last().1)
    }
}

/// The request line: `METHOD SP target SP HTTP/1.1 CR LF`.
pub open spec fn request_line(method: Seq<u8>, target: Seq<u8>) -> Seq<u8> {
    method + seq![32u8] + target + seq![32u8] + seq![
        72u8,
        84u8,
        84u8,
        80u8,
        47u8,
        49u8,
        46u8,
        49u8,
        13u8,
        10u8,
    ]
}

/// The whole serialized request: request line, header lines, then a blank
/// line. No body is emitted; bodies are the caller's business through the
/// writable half once the handshake is over.
pub open spec fn request_bytes(r: HttpRequest) -> Seq<u8> {
    request_line(r.method@, r.target@) + header_block(r.headers_view()) + seq![13u8, 10u8]
}

/// The request descriptor: method, target and an ordered header list,
/// supplied once by the caller and read-only during the handshake.
#[derive(Debug)]
pub struct HttpRequest {
    pub method: Vec<u8>,
    pub target: Vec<u8>,
    pub headers: Vec<(Vec<u8>, Vec<u8>)>,
}

impl HttpRequest {
    /// The header list as byte sequences.
    pub open spec fn headers_view(self) -> Seq<(Seq<u8>, Seq<u8>)> {
        self.headers@.map_values(|p: (Vec<u8>, Vec<u8>)| (p.0@, p.1@))
    }

    /// Build a descriptor; a request without a method is a `GET`.
    pub fn new(method: Option<Vec<u8>>, target: Vec<u8>, headers: Vec<(Vec<u8>, Vec<u8>)>) -> (r:
        HttpRequest)
        ensures
            r.target == target,
            r.headers == headers,
            match method {
                Some(m) => r.method == m,
                None => r.method@ == seq![71u8, 69u8, 84u8],
            },
    {
        let m: Vec<u8> = match method {
            Some(m) => m,
            None => {
                let mut v: Vec<u8> = Vec::new();
                v.push(71);
                v.push(69);
                v.push(84);
                proof {
                    assert(v@ =~= seq![71u8, 69u8, 84u8]);
                }
                v
            },
        };
        HttpRequest { method: m, target, headers }
    }

    /// Serialize the descriptor into its wire format.
    pub fn serialize(&self) -> (r: Vec<u8>)
        ensures
            r@ == request_bytes(*self),
    {
        let mut out: Vec<u8> = Vec::new();
        push_all(&mut out, &self.method);
        out.push(32);
        push_all(&mut out, &self.target);
        out.push(32);
        out.push(72);
        out.push(84);
        out.push(84);
        out.push(80);
        out.push(47);
        out.push(49);
        out.push(46);
        out.push(49);
        out.push(13);
        out.push(10);
        proof {
            assert(out@ =~= request_line(self.method@, self.target@));
            assert(out@ =~= request_line(self.method@, self.target@) + header_block(
                self.headers_view().take(0),
            ));
        }
        let mut i: usize = 0;
        while i < self.headers.len()
            invariant
                i <= self.headers@.len(),
                out@ == request_line(self.method@, self.target@) + header_block(
                    self.headers_view().take(i as int),
                ),
            decreases self.headers@.len() - i,
        {
            push_all(&mut out, &self.headers[i].0);
            out.push(58);
            out.push(32);
            push_all(&mut out, &self.headers[i].1);
            out.push(13);
            out.push(10);
            proof {
                let hs = self.headers_view();
                assert(hs[i as int] == (self.headers@[i as int].0@, self.headers@[i as int].1@));
                assert(hs.take(i + 1).drop_last() =~= hs.take(i as int));
                assert(hs.take(i + 1).last() == hs[i as int]);
                assert(out@ =~= request_line(self.method@, self.target@) + header_block(
                    hs.take(i + 1),
                ));
            }
            i += 1;
        }
        out.push(13);
        out.push(10);
        proof {
            assert(self.headers_view().take(self.headers_view().len() as int)
                =~= self.headers_view());
            assert(out@ =~= request_bytes(*self));
        }
        out
    }
}

/// The high-level front end's transport address, derived from the request
/// URI's authority: the host, and the port, defaulting to 80 when the
/// authority names none. The inner transport is built from these by the
/// caller; this core only records the derivation.
#[derive(Debug)]
pub struct Http {
    pub request: HttpRequest,
    pub host: Vec<u8>,
    pub port: u16,
}

impl Http {
    /// Pair a request with its derived transport address; an authority
    /// without a port means port 80.
    pub fn new(request: HttpRequest, host: Vec<u8>, port: Option<u16>) -> (r: Http)
        ensures
            r.request == request,
            r.host == host,
            r.port == match port {
                Some(p) => p,
                None => 80u16,
            },
    {
        let p: u16 = match port {
            Some(p) => p,
            None => 80,
        };
        Http { request, host, port: p }
    }
}

/// Append every byte of `src` to `out`.
fn push_all(out: &mut Vec<u8>, src: &Vec<u8>)
    ensures
        final(out)@ == old(out)@ + src@,
{
    proof {
        assert(old(out)@ + src@.take(0) =~= old(out)@);
    }
    let mut i: usize = 0;
    while i < src.len()
        invariant
            i <= src@.len(),
            out@ == old(out)@ + src@.take(i as int),
        decreases src@.len() - i,
    {
        let b: u8 = src[i];
        out.push(b);
        proof {
            assert(old(out)@ + src@.take(i as int) + seq![src@[i as int]] =~= old(out)@ + src@.take(
                i + 1,
            ));
        }
        i += 1;
    }
    proof {
        assert(src@.take(src@.len() as int) =~= src@);
    }
}

} // verus!
