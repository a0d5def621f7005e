//! Options passed when opening a gateway connection, and how they appear in its URL.
use vstd::prelude::*;
use vstd::string::StringExecFns;

use crate::text::{chars_of, contains_char};

verus! {

/// The server software an instance runs.
#[derive(Clone, Copy, Debug, PartialEq, Eq, Structural, Hash, Default)]
pub enum InstanceSoftware {
    /// The Spacebar TypeScript server.
    SpacebarTypescript,
    /// The Symfonia server.
    Symfonia,
    /// Anything else, such as discord.com.
    #[default]
    Other,
}

/// Whether the software accepts zlib-stream transport compression on the gateway.
pub open spec fn spec_supports_gateway_zlib(software: InstanceSoftware) -> bool {
    software != InstanceSoftware::Symfonia
}

impl InstanceSoftware {
    /// Whether the software accepts zlib-stream transport compression on the gateway.
    pub fn supports_gateway_zlib(self) -> (res: bool)
        ensures
            res == spec_supports_gateway_zlib(self),
    {
        match self {
            InstanceSoftware::SpacebarTypescript => true,
            InstanceSoftware::Symfonia => false,
            InstanceSoftware::Other => true,
        }
    }
}

/// Options passed when initializing the gateway connection, e.g. compression.
#[derive(Clone, Copy, PartialEq, Eq, Structural, Debug, Default)]
pub struct GatewayOptions {
    pub encoding: GatewayEncoding,
    pub transport_compression: GatewayTransportCompression,
}

/// Possible transport compression options for the gateway.
#[derive(Clone, Copy, PartialEq, Eq, Structural, Debug, Default)]
pub enum GatewayTransportCompression {
    /// Do not transport compress packets.
    Uncompressed,
    /// Transport compress using zlib stream.
    #[default]
    ZLibStream,
}

/// Possible payload encodings for the gateway.
#[derive(Clone, Copy, PartialEq, Eq, Structural, Debug, Default)]
pub enum GatewayEncoding {
    /// JavaScript object notation.
    #[default]
    Json,
    /// Erlang's external term format (not implemented by this library).
    ETF,
}

/// The URL parameter of an encoding.
pub open spec fn encoding_parameter(e: GatewayEncoding) -> Seq<char> {
    match e {
        GatewayEncoding::Json => "encoding=json"@,
        GatewayEncoding::ETF => "encoding=etf"@,
    }
}

/// The URL parameter of a transport compression, if it needs one.
pub open spec fn compression_parameter(c: GatewayTransportCompression) -> Option<Seq<char>> {
    match c {
        GatewayTransportCompression::Uncompressed => None,
        GatewayTransportCompression::ZLibStream => Some("compress=zlib-stream"@),
    }
}

impl GatewayTransportCompression {
    /// The option as a URL parameter: none for no compression, `compress=zlib-stream`
    /// otherwise.
    pub fn to_url_parameter(self) -> (res: Option<String>)
        ensures
            match res {
                Some(s) => compression_parameter(self) == Some(s@),
                None => compression_parameter(self) is None,
            },
    {
        match self {
            Self::Uncompressed => None,
            Self::ZLibStream => Some(String::from_str("compress=zlib-stream")),
        }
    }
}

impl GatewayEncoding {
    /// The option as a URL parameter, such as `encoding=json`.
    pub fn to_url_parameter(self) -> (res: String)
        ensures
            res@ == encoding_parameter(self),
    {
        match self {
            Self::Json => String::from_str("encoding=json"),
            Self::ETF => String::from_str("encoding=etf"),
        }
    }
}

/// Whether a URL already carries query parameters (it holds both `?` and `=`).
pub open spec fn has_query(url: Seq<char>) -> bool {
    url.contains('?') && url.contains('=')
}

/// The URL to which parameters are appended: unchanged if it already has parameters or ends
/// in `/`, and with a `/` added otherwise.
pub open spec fn url_base(url: Seq<char>) -> Seq<char> {
    if has_query(url) || (url.len() > 0 && url.last() == '/') {
        url
    } else {
        url.push('/')
    }
}

/// `url` with the parameters of `options` appended: the first after `?` (or after `&` if the
/// URL already has parameters), the next after `&`.
pub open spec fn url_with_options(url: Seq<char>, options: GatewayOptions) -> Seq<char> {
    let first = (if has_query(url) { seq!['&'] } else { seq!['?'] }) + encoding_parameter(
        options.encoding,
    );
    let rest = match compression_parameter(options.transport_compression) {
        Some(p) => seq!['&'] + p,
        None => Seq::<char>::empty(),
    };
    url_base(url) + first + rest
}

impl GatewayOptions {
    /// The options suited to an instance running `software`: JSON encoding, and zlib-stream
    /// compression where the software supports it.
    pub fn for_instance_software(software: InstanceSoftware) -> (res: GatewayOptions)
        ensures
            res.encoding == GatewayEncoding::Json,
            res.transport_compression == if spec_supports_gateway_zlib(software) {
                GatewayTransportCompression::ZLibStream
            } else {
                GatewayTransportCompression::Uncompressed
            },
    {
        let encoding = GatewayEncoding::Json;

        let transport_compression = match software.supports_gateway_zlib() {
            true => GatewayTransportCompression::ZLibStream,
            false => GatewayTransportCompression::Uncompressed,
        };

        GatewayOptions { encoding, transport_compression }
    }

    /// Adds the options to an existing gateway URL, returning the new URL.
    pub fn add_to_url(&self, url: &str) -> (res: String)
        ensures
            res@ == url_with_options(url@, *self),
    {
        let mut out = String::from_str(url);
        let cs = chars_of(url);

        let mut has_parameters = contains_char(&cs, '?') && contains_char(&cs, '=');

        if !has_parameters {
            let n = cs.len();
            if n == 0 || cs[n - 1] != '/' {
                out.append("/");
            }
        }
        proof {
            reveal_strlit("/");
            assert(out@ == url_base(url@));
        }

        let mut parameters: Vec<String> = Vec::new();
        parameters.push(self.encoding.to_url_parameter());
        if let Some(compression) = self.transport_compression.to_url_parameter() {
            parameters.push(compression);
        }

        let ghost base = out@;
        let ghost started = has_parameters;
        let mut i: usize = 0;
        while i < parameters.len()
            invariant
                1 <= parameters@.len() <= 2,
                parameters@[0]@ == encoding_parameter(self.encoding),
                parameters@.len() == 2 <==> compression_parameter(self.transport_compression) is Some,
                compression_parameter(self.transport_compression) matches Some(p) ==> parameters@[1]@ == p,
                base == url_base(url@),
                started == has_query(url@),
                i <= parameters@.len(),
                i > 0 ==> has_parameters,
                i == 0 ==> has_parameters == started,
                out@ == base + (if i == 0 {
                    Seq::<char>::empty()
                } else {
                    (if started { seq!['&'] } else { seq!['?'] }) + parameters@[0]@
                }) + (if i == 2 {
                    seq!['&'] + parameters@[1]@
                } else {
                    Seq::<char>::empty()
                }),
            decreases parameters@.len() - i,
        {
            if !has_parameters {
                out.append("?");
                has_parameters = true;
            } else {
                out.append("&");
            }
            out.append(parameters[i].as_str());
            proof {
                reveal_strlit("?");
                reveal_strlit("&");
            }
            i = i + 1;
        }
        proof {
            assert(out@ =~= url_with_options(url@, *self));
        }
        out
    }
}

} // verus!

verus! {

/// Adding options to a URL only appends to it: the URL given is a prefix of the result,
/// which then holds the encoding parameter.
pub proof fn lemma_add_to_url_extends(url: Seq<char>, options: GatewayOptions)
    ensures
        url_with_options(url, options).len() > url.len(),
        url_with_options(url, options).take(url.len() as int) == url,
{
    let base = url_base(url);
    assert(base.take(url.len() as int) =~= url);
    let r = url_with_options(url, options);
    assert(r.take(url.len() as int) =~= base.take(url.len() as int));
}

/// A URL without parameters that ends in `/` gets the parameters after `?`, the encoding
/// first and the compression (if any) after `&`.
pub proof fn lemma_add_to_url_plain(url: Seq<char>, options: GatewayOptions)
    requires
        !url.contains('?'),
        url.len() > 0,
        url.last() == '/',
    ensures
        url_with_options(url, options) == url + seq!['?'] + encoding_parameter(options.encoding)
            + match compression_parameter(options.transport_compression) {
            Some(p) => seq!['&'] + p,
            None => Seq::<char>::empty(),
        },
{
    let r = url_with_options(url, options);
    assert(r =~= url + seq!['?'] + encoding_parameter(options.encoding) + match compression_parameter(
        options.transport_compression,
    ) {
        Some(p) => seq!['&'] + p,
        None => Seq::<char>::empty(),
    });
}

} // verus!
