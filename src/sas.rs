use vstd::prelude::*;
use vstd::string::StringExecFns;

use crate::encoding::{
    all_ascii, base64_encode, base64_of, decimal, decimal_string, hex_digit,
    is_unreserved, percent_ascii, percent_char, percent_encode, url_encoded,
};
use crate::error::{wrapped_message, Error, ErrorKind, EXIT_FAILURE};

verus! {

/// How long a token stays valid, in seconds from the moment it is made.
pub const TOKEN_VALIDITY_SECS: u64 = 50000;

/// A moment as seconds and nanoseconds since the Unix epoch.
#[derive(Clone, Copy, Debug, PartialEq, Eq, Structural)]
pub struct UnixTime {
    pub secs: u64,
    pub nanos: u32,
}

impl UnixTime {
    pub open spec fn wf(self) -> bool {
        self.nanos < 1_000_000_000
    }
}

/// The text that names a module within its hub, before encoding.
pub open spec fn resource_text(hub: Seq<char>, device: Seq<char>, module: Seq<char>) -> Seq<char> {
    hub + "/devices/"@ + device + "/modules/"@ + module
}

/// The data the key service signs: the resource, a line break and the expiry in decimal.
pub open spec fn payload_text(resource: Seq<char>, expiry: nat) -> Seq<char> {
    resource + "\n"@ + decimal(expiry)
}

/// The serialized token.
pub open spec fn token_text(resource: Seq<char>, expiry: nat, sig: Seq<char>) -> Seq<char> {
    "SharedAccessSignature sr="@ + resource + "&se="@ + decimal(expiry) + "&sig="@ + sig
}

/// The encoded resource locator of a module: the joined name, percent-encoded as a whole.
pub fn get_resource_uri(hub_name: &str, device_id: &str, module_id: &str) -> (r: String)
    ensures
        r@ == url_encoded(resource_text(hub_name@, device_id@, module_id@)),
        all_ascii(resource_text(hub_name@, device_id@, module_id@)) ==> r@ == percent_ascii(
            resource_text(hub_name@, device_id@, module_id@),
        ),
{
    let joined = String::from_str(hub_name).concat("/devices/").concat(device_id).concat(
        "/modules/",
    ).concat(module_id);
    percent_encode(joined.as_str())
}

/// The expiry of a token made at `now`: whole seconds, the fraction dropped.
pub fn expiry_secs(now: UnixTime) -> (r: u64)
    requires
        now.wf(),
        now.secs + TOKEN_VALIDITY_SECS <= u64::MAX,
    ensures
        r == now.secs + TOKEN_VALIDITY_SECS,
{
    now.secs + TOKEN_VALIDITY_SECS
}

/// The data to sign for `resource` and `expiry`.
pub fn signing_payload(resource: &str, expiry: u64) -> (r: String)
    ensures
        r@ == payload_text(resource@, expiry as nat),
{
    let digits = decimal_string(expiry);
    String::from_str(resource).concat("\n").concat(digits.as_str())
}

/// The signature as it stands in a token: base64, then percent-encoded.
pub fn encode_signature(signature: &[u8]) -> (r: String)
    ensures
        r@ == url_encoded(base64_of(signature@)),
{
    let b64 = base64_encode(signature);
    percent_encode(b64.as_str())
}

/// The token text from its three fields, in the fixed order `sr`, `se`, `sig`.
pub fn assemble_token(resource: &str, expiry: u64, encoded_signature: &str) -> (r: String)
    ensures
        r@ == token_text(resource@, expiry as nat, encoded_signature@),
{
    let digits = decimal_string(expiry);
    String::from_str("SharedAccessSignature sr=").concat(resource).concat("&se=").concat(
        digits.as_str(),
    ).concat("&sig=").concat(encoded_signature)
}

/// The token for `resource` and `expiry` from the raw signature bytes.
pub fn sas_token(resource: &str, expiry: u64, signature: &[u8]) -> (r: String)
    ensures
        r@ == token_text(resource@, expiry as nat, url_encoded(base64_of(signature@))),
{
    let sig = encode_signature(signature);
    assemble_token(resource, expiry, sig.as_str())
}

/// What the token signer asks of the key service, and the fields the token will carry.
#[derive(Clone, Debug)]
pub struct SasRequest {
    pub resource: String,
    pub expiry: u64,
    pub payload: String,
}

impl SasRequest {
    /// The request for a module's token made at `now`.
    pub fn new(hub_name: &str, device_id: &str, module_id: &str, now: UnixTime) -> (r: SasRequest)
        requires
            now.wf(),
            now.secs + TOKEN_VALIDITY_SECS <= u64::MAX,
        ensures
            r.resource@ == url_encoded(resource_text(hub_name@, device_id@, module_id@)),
            all_ascii(resource_text(hub_name@, device_id@, module_id@)) ==> r.resource@
                == percent_ascii(resource_text(hub_name@, device_id@, module_id@)),
            r.expiry == now.secs + TOKEN_VALIDITY_SECS,
            r.payload@ == payload_text(r.resource@, r.expiry as nat),
    {
        let resource = get_resource_uri(hub_name, device_id, module_id);
        let expiry = expiry_secs(now);
        let payload = signing_payload(resource.as_str(), expiry);
        SasRequest { resource, expiry, payload }
    }

    /// The token once the key service has answered: the token from the signature, or a
    /// dependency failure that carries the service's description.
    pub fn finish(&self, signed: Result<Vec<u8>, String>) -> (r: Result<String, Error>)
        ensures
            signed is Ok ==> r is Ok && r->Ok_0@ == token_text(
                self.resource@,
                self.expiry as nat,
                url_encoded(base64_of(signed->Ok_0@)),
            ),
            signed is Err ==> r is Err && r->Err_0.kind == ErrorKind::Dependency
                && r->Err_0.exit_code == EXIT_FAILURE && r->Err_0.message@ == wrapped_message(
                "Failed to sign digest"@,
                signed->Err_0@,
            ),
    {
        match signed {
            Ok(signature) => Ok(sas_token(self.resource.as_str(), self.expiry, signature.as_slice())),
            Err(cause) => Err(Error::from_err("Failed to sign digest", cause.as_str())),
        }
    }
}

proof fn lemma_percent_ascii_split(a: Seq<char>, b: Seq<char>)
    ensures
        percent_ascii(a + b) == percent_ascii(a) + percent_ascii(b),
    decreases a.len(),
{
    if a.len() == 0 {
        assert(a + b =~= b);
    } else {
        assert((a + b).drop_first() =~= a.drop_first() + b);
        lemma_percent_ascii_split(a.drop_first(), b);
    }
}

proof fn lemma_percent_ascii_no_slash(s: Seq<char>)
    requires
        all_ascii(s),
    ensures
        !percent_ascii(s).contains('/'),
    decreases s.len(),
{
    if s.len() > 0 {
        lemma_percent_ascii_no_slash(s.drop_first());
        let c = s[0];
        let d1 = (c as u32 as nat) / 16;
        let d2 = (c as u32 as nat) % 16;
        assert(hex_digit(d1) != '/');
        assert(hex_digit(d2) != '/');
        let whole = percent_ascii(s);
        assert(whole == percent_char(c) + percent_ascii(s.drop_first()));
        if whole.contains('/') {
            let i = choose|i: int| 0 <= i < whole.len() && whole[i] == '/';
            if i >= percent_char(c).len() {
                assert(percent_ascii(s.drop_first())[i - percent_char(c).len()] == '/');
            }
        }
    }
}

/// The encoded resource locator of a module whose names are ASCII carries no `/`: each
/// separator of the joined name, and any `/` within a name, becomes `%2F`.
pub proof fn lemma_resource_locator_encodes_separators(
    hub_name: Seq<char>,
    device_id: Seq<char>,
    module_id: Seq<char>,
)
    requires
        all_ascii(resource_text(hub_name, device_id, module_id)),
    ensures
        !percent_ascii(resource_text(hub_name, device_id, module_id)).contains('/'),
        percent_char('/') == "%2F"@,
        percent_ascii(resource_text(hub_name, device_id, module_id)) == percent_ascii(hub_name)
            + "%2Fdevices%2F"@ + percent_ascii(device_id) + "%2Fmodules%2F"@ + percent_ascii(
            module_id,
        ),
{
    lemma_percent_ascii_no_slash(resource_text(hub_name, device_id, module_id));
    reveal_strlit("%2F");
    reveal_strlit("/devices/");
    reveal_strlit("/modules/");
    reveal_strlit("%2Fdevices%2F");
    reveal_strlit("%2Fmodules%2F");
    assert(!is_unreserved('/'));
    assert(percent_char('/') =~= "%2F"@);
    let sep1 = "/devices/"@;
    let sep2 = "/modules/"@;
    assert(percent_ascii(sep1) =~= "%2Fdevices%2F"@) by {
        reveal_with_fuel(percent_ascii, 10);
    }
    assert(percent_ascii(sep2) =~= "%2Fmodules%2F"@) by {
        reveal_with_fuel(percent_ascii, 10);
    }
    lemma_percent_ascii_split(hub_name + sep1 + device_id + sep2, module_id);
    lemma_percent_ascii_split(hub_name + sep1 + device_id, sep2);
    lemma_percent_ascii_split(hub_name + sep1, device_id);
    lemma_percent_ascii_split(hub_name, sep1);
}

proof fn lemma_decimal_digits(n: nat)
    ensures
        forall|i: int| 0 <= i < decimal(n).len() ==> '0' <= #[trigger] decimal(n)[i] <= '9',
        decimal(n).len() > 0,
    decreases n,
{
    if n >= 10 {
        lemma_decimal_digits(n / 10);
    }
}

/// Whatever its fields, a token starts with `SharedAccessSignature sr=`, holds the
/// resource, then `&se=` and the expiry as a non-empty run of decimal digits, then
/// `&sig=` and the encoded signature, in that order and nothing else.
pub proof fn lemma_token_layout(resource: Seq<char>, expiry: nat, sig: Seq<char>)
    ensures
        ({
            let t = token_text(resource, expiry, sig);
            let p = "SharedAccessSignature sr="@;
            let pl = p.len() as int;
            let rl = resource.len() as int;
            let se = pl + rl + 4;
            let dl = decimal(expiry).len() as int;
            let digits = t.subrange(se, se + dl);
            &&& t.subrange(0, pl) == p
            &&& t.subrange(pl, pl + rl) == resource
            &&& t.subrange(pl + rl, se) == "&se="@
            &&& digits.len() > 0
            &&& forall|i: int| 0 <= i < digits.len() ==> '0' <= #[trigger] digits[i] <= '9'
            &&& t.subrange(se + dl, se + dl + 5) == "&sig="@
            &&& t.subrange(se + dl + 5, t.len() as int) == sig
        }),
{
    reveal_strlit("&se=");
    reveal_strlit("&sig=");
    lemma_decimal_digits(expiry);
    let t = token_text(resource, expiry, sig);
    let p = "SharedAccessSignature sr="@;
    let pl = p.len() as int;
    let rl = resource.len() as int;
    let se = pl + rl + 4;
    let dl = decimal(expiry).len() as int;
    assert(t.subrange(0, pl) =~= p);
    assert(t.subrange(pl, pl + rl) =~= resource);
    assert(t.subrange(pl + rl, se) =~= "&se="@);
    assert(t.subrange(se, se + dl) =~= decimal(expiry));
    assert(t.subrange(se + dl, se + dl + 5) =~= "&sig="@);
    assert(t.subrange(se + dl + 5, t.len() as int) =~= sig);
}

} // verus!
