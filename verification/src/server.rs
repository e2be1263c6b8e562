//! Server address and authenticated request URLs of the Subsonic API.
use vstd::prelude::*;

use rand::RngCore;

use crate::subsonic::SubsonicError;
use crate::text::push_char;

verus! {

broadcast use vstd::string::group_string_axioms;

/// `url::ParseError`: why a URL could not be parsed.
#[verifier::external_type_specification]
#[verifier::external_body]
pub struct ExUrlParseError(url::ParseError);

/// The serialization of the URL that `url::Url::parse` makes of `s`, or none
/// when `s` is not a valid absolute URL.
pub uninterp spec fn parsed_url(s: Seq<char>) -> Option<Seq<char>>;

/// The serialization of the URL that `input` denotes relative to the URL that
/// `base` parses to (`url::Url::join`), or none when either fails.
pub uninterp spec fn joined_url(base: Seq<char>, input: Seq<char>) -> Option<Seq<char>>;

/// The serialization of the URL that `url` parses to with the name/value
/// pairs appended to its query in order, form-encoded
/// (`form_urlencoded::Serializer::append_pair`), or none when `url` does not
/// parse.
pub uninterp spec fn url_with_query(url: Seq<char>, pairs: Seq<(Seq<char>, Seq<char>)>) -> Option<
    Seq<char>,
>;

/// The 32 lowercase hexadecimal digits of the MD5 digest of the UTF-8 bytes
/// of `s` (`md5::compute`).
pub uninterp spec fn md5_hex(s: Seq<char>) -> Seq<char>;

/// `url::Url::parse`: the serialization of the parsed URL. Its result is
/// named; an error exactly when the name gives none.
#[verifier::external_body]
fn parse_url(s: &str) -> (r: Result<String, url::ParseError>)
    ensures
        r is Ok <==> parsed_url(s@) is Some,
        r matches Ok(u) ==> u@ == parsed_url(s@)->0,
{
    url::Url::parse(s).map(String::from)
}

/// `url::Url::join` on the URL that `base` parses to. Its result is named; an
/// error exactly when the name gives none.
#[verifier::external_body]
fn join_url(base: &str, input: &str) -> (r: Result<String, url::ParseError>)
    ensures
        r is Ok <==> joined_url(base@, input@) is Some,
        r matches Ok(u) ==> u@ == joined_url(base@, input@)->0,
{
    url::Url::parse(base)?.join(input).map(String::from)
}

/// The view of a list of name/value pairs.
pub open spec fn pairs_view(pairs: Seq<(String, String)>) -> Seq<(Seq<char>, Seq<char>)> {
    pairs.map_values(|p: (String, String)| (p.0@, p.1@))
}

/// `Url::query_pairs_mut().append_pair(..)` for each pair in order, on the
/// URL that `url` parses to. Its result is named; an error exactly when the
/// name gives none.
#[verifier::external_body]
fn append_query(url: &str, pairs: &Vec<(String, String)>) -> (r: Result<String, url::ParseError>)
    ensures
        r is Ok <==> url_with_query(url@, pairs_view(pairs@)) is Some,
        r matches Ok(u) ==> u@ == url_with_query(url@, pairs_view(pairs@))->0,
{
    let mut u = url::Url::parse(url)?;
    for (name, value) in pairs {
        u.query_pairs_mut().append_pair(name, value);
    }
    Ok(String::from(u))
}

/// `md5::compute` printed with `{:x}`: 32 lowercase hexadecimal digits.
#[verifier::external_body]
fn md5_hex_of(s: &str) -> (r: String)
    ensures
        r@ == md5_hex(s@),
        r@.len() == 32,
{
    format!("{:x}", md5::compute(s.as_bytes()))
}

/// `rand::rngs::OsRng::try_fill_bytes` on eight bytes, read as a
/// little-endian number: random bytes from the operating system, or none when
/// its random source fails. Nothing is claimed of the value, nor of when the
/// source fails.
#[verifier::external_body]
fn random_u64() -> (r: Option<u64>) {
    let mut bytes = [0u8; 8];
    match rand::rngs::OsRng.try_fill_bytes(&mut bytes) {
        Ok(()) => Some(u64::from_le_bytes(bytes)),
        Err(_) => None,
    }
}

/// Client name sent to the server.
pub const CLIENT_NAME: &'static str = "ferrosonic-rs";

/// API version the client speaks.
pub const API_VERSION: &'static str = "1.16.1";

/// The lowercase hexadecimal digit for `d` (0..=15).
pub open spec fn hex_char(d: int) -> char {
    seq!['0', '1', '2', '3', '4', '5', '6', '7', '8', '9', 'a', 'b', 'c', 'd', 'e', 'f'][d]
}

/// The last `width` hexadecimal digits of `n`, most significant first.
pub open spec fn hex_digits(n: nat, width: nat) -> Seq<char>
    decreases width,
{
    if width == 0 {
        Seq::empty()
    } else {
        hex_digits(n / 16, (width - 1) as nat).push(hex_char((n % 16) as int))
    }
}

fn hex_digit_exec(d: u64) -> (c: char)
    requires
        d < 16,
    ensures
        c == hex_char(d as int),
{
    let digits: [char; 16] = [
        '0', '1', '2', '3', '4', '5', '6', '7', '8', '9', 'a', 'b', 'c', 'd', 'e', 'f',
    ];
    assert(digits@ =~= seq![
        '0', '1', '2', '3', '4', '5', '6', '7', '8', '9', 'a', 'b', 'c', 'd', 'e', 'f',
    ]);
    digits[d as usize]
}

fn push_hex(out: &mut String, n: u64, width: u64)
    ensures
        final(out)@ == old(out)@ + hex_digits(n as nat, width as nat),
    decreases width,
{
    if width > 0 {
        push_hex(out, n / 16, width - 1);
        push_char(out, hex_digit_exec(n % 16));
        assert(old(out)@ + hex_digits((n / 16) as nat, (width - 1) as nat) + seq![
            hex_char((n % 16) as int),
        ] =~= old(out)@ + hex_digits(n as nat, width as nat));
    } else {
        assert(old(out)@ + hex_digits(n as nat, 0) =~= old(out)@);
    }
}

/// The 16 hexadecimal digits of a 64-bit number, as `{:016x}` prints it.
pub fn hex16(n: u64) -> (r: String)
    ensures
        r@ == hex_digits(n as nat, 16),
{
    let mut s = String::new();
    push_hex(&mut s, n, 16);
    assert(Seq::<char>::empty() + hex_digits(n as nat, 16) =~= hex_digits(n as nat, 16));
    s
}

/// A fresh random salt for token authentication: 16 hexadecimal digits, or
/// none when the operating system's random source fails.
pub fn random_salt() -> (r: Option<String>)
    ensures
        r matches Some(salt) ==> exists|n: u64| salt@ == hex_digits(n as nat, 16),
{
    match random_u64() {
        Some(n) => Some(hex16(n)),
        None => None,
    }
}

/// The authentication pairs of a request: user, token, salt, protocol
/// version, client name.
pub open spec fn auth_pairs(
    username: Seq<char>,
    token: Seq<char>,
    salt: Seq<char>,
) -> Seq<(Seq<char>, Seq<char>)> {
    seq![
        ("u"@, username),
        ("t"@, token),
        ("s"@, salt),
        ("v"@, API_VERSION@),
        ("c"@, CLIENT_NAME@),
    ]
}

/// A server to talk to: its address (as the URL parser serializes it) and
/// the credentials.
#[derive(Debug, Clone, PartialEq)]
pub struct ServerAccess {
    pub base_url: String,
    pub username: String,
    pub password: String,
}

/// The token for a salt: MD5 of the password followed by the salt.
pub open spec fn token_for(password: Seq<char>, salt: Seq<char>) -> Seq<char> {
    md5_hex(password + salt)
}

/// The URL that results from appending `pairs` to the URL that `path` denotes
/// under `base`, or none when joining or appending fails.
pub open spec fn request_url(base: Seq<char>, path: Seq<char>, pairs: Seq<(Seq<char>, Seq<char>)>) -> Option<
    Seq<char>,
> {
    match joined_url(base, path) {
        Some(j) => url_with_query(j, pairs),
        None => None,
    }
}

/// A URL result: the URL, or a URL error exactly when there is none.
pub open spec fn url_result(r: Result<String, SubsonicError>, u: Option<Seq<char>>) -> bool {
    match u {
        Some(s) => r matches Ok(v) && v@ == s,
        None => r matches Err(SubsonicError::Url(_)),
    }
}

fn pair(name: &str, value: &str) -> (r: (String, String))
    ensures
        r.0@ == name@,
        r.1@ == value@,
{
    (name.to_owned(), value.to_owned())
}

fn join_pairs(a: Vec<(String, String)>, b: &Vec<(String, String)>) -> (r: Vec<(String, String)>)
    ensures
        pairs_view(r@) == pairs_view(a@) + pairs_view(b@),
{
    let mut out = a;
    let ghost start = out@;
    let mut i: usize = 0;
    while i < b.len()
        invariant
            i <= b@.len(),
            out@ == start + b@.take(i as int),
        decreases b@.len() - i,
    {
        let (n, v) = &b[i];
        out.push((n.clone(), v.clone()));
        assert(b@.take(i + 1) =~= b@.take(i as int).push(b@[i as int]));
        i = i + 1;
    }
    assert(b@.take(b@.len() as int) =~= b@);
    assert(pairs_view(out@) =~= pairs_view(start) + pairs_view(b@));
    out
}

impl ServerAccess {
    /// A server at `base_url` with these credentials; a URL error when the
    /// address does not parse.
    pub fn new(base_url: &str, username: &str, password: &str) -> (r: Result<
        ServerAccess,
        SubsonicError,
    >)
        ensures
            r is Ok <==> parsed_url(base_url@) is Some,
            r matches Ok(s) ==> s.base_url@ == parsed_url(base_url@)->0 && s.username@
                == username@ && s.password@ == password@,
            r matches Err(e) ==> e is Url,
    {
        match parse_url(base_url) {
            Ok(base) => Ok(
                ServerAccess {
                    base_url: base,
                    username: username.to_owned(),
                    password: password.to_owned(),
                },
            ),
            Err(e) => Err(SubsonicError::Url(e)),
        }
    }

    /// The authentication token for `salt`.
    pub fn token(&self, salt: &str) -> (r: String)
        ensures
            r@ == token_for(self.password@, salt@),
    {
        let mut s = self.password.clone();
        s.append(salt);
        md5_hex_of(s.as_str())
    }

    /// The URL of API endpoint `endpoint` authenticated with `salt`, asking
    /// for JSON, with `extra` pairs after the authentication pairs.
    pub fn api_url_salted(
        &self,
        endpoint: &str,
        extra: &Vec<(String, String)>,
        salt: &str,
    ) -> (r: Result<String, SubsonicError>)
        ensures
            url_result(
                r,
                request_url(
                    self.base_url@,
                    "rest/"@ + endpoint@,
                    auth_pairs(self.username@, token_for(self.password@, salt@), salt@).push(
                        ("f"@, "json"@),
                    ) + pairs_view(extra@),
                ),
            ),
    {
        let mut path = "rest/".to_owned();
        path.append(endpoint);
        let joined = match join_url(self.base_url.as_str(), path.as_str()) {
            Ok(u) => u,
            Err(e) => {
                return Err(SubsonicError::Url(e));
            },
        };
        let token = self.token(salt);
        let mut pairs: Vec<(String, String)> = Vec::new();
        pairs.push(pair("u", self.username.as_str()));
        pairs.push(pair("t", token.as_str()));
        pairs.push(pair("s", salt));
        pairs.push(pair("v", API_VERSION));
        pairs.push(pair("c", CLIENT_NAME));
        pairs.push(pair("f", "json"));
        let all = join_pairs(pairs, extra);
        proof {
            let ghost auth = auth_pairs(self.username@, token_for(self.password@, salt@), salt@).push(
                ("f"@, "json"@),
            );
            assert(pairs_view(all@) =~= auth + pairs_view(extra@)) by {
                assert(pairs_view(all@).take(6) =~= auth);
            }
        }
        match append_query(joined.as_str(), &all) {
            Ok(u) => Ok(u),
            Err(e) => Err(SubsonicError::Url(e)),
        }
    }

    /// The URL of API endpoint `endpoint` for the outcome of drawing a salt:
    /// with a drawn salt, exactly the URL `api_url_salted` builds with it (so
    /// never `NoSalt`); without one, the `NoSalt` error.
    pub fn api_url_with_drawn_salt(
        &self,
        endpoint: &str,
        extra: &Vec<(String, String)>,
        drawn: Option<String>,
    ) -> (r: Result<String, SubsonicError>)
        ensures
            drawn is None ==> r == Err::<String, SubsonicError>(SubsonicError::NoSalt),
            drawn matches Some(salt) ==> url_result(
                r,
                request_url(
                    self.base_url@,
                    "rest/"@ + endpoint@,
                    auth_pairs(self.username@, token_for(self.password@, salt@), salt@).push(
                        ("f"@, "json"@),
                    ) + pairs_view(extra@),
                ),
            ),
            drawn is Some ==> r != Err::<String, SubsonicError>(SubsonicError::NoSalt),
    {
        match drawn {
            Some(salt) => self.api_url_salted(endpoint, extra, salt.as_str()),
            None => Err(SubsonicError::NoSalt),
        }
    }

    /// The URL of API endpoint `endpoint` with a fresh random salt; the
    /// `NoSalt` error when no salt could be drawn.
    pub fn api_url(&self, endpoint: &str, extra: &Vec<(String, String)>) -> (r: Result<
        String,
        SubsonicError,
    >)
        ensures
            r == Err::<String, SubsonicError>(SubsonicError::NoSalt) || exists|n: u64|
                url_result(
                    r,
                    request_url(
                        self.base_url@,
                        "rest/"@ + endpoint@,
                        auth_pairs(
                            self.username@,
                            token_for(self.password@, hex_digits(n as nat, 16)),
                            hex_digits(n as nat, 16),
                        ).push(("f"@, "json"@)) + pairs_view(extra@),
                    ),
                ),
    {
        self.api_url_with_drawn_salt(endpoint, extra, random_salt())
    }

    /// The stream URL of a song authenticated with `salt`: the song id first,
    /// then the authentication pairs (no response format).
    pub fn stream_url_salted(&self, song_id: &str, salt: &str) -> (r: Result<
        String,
        SubsonicError,
    >)
        ensures
            url_result(
                r,
                request_url(
                    self.base_url@,
                    "rest/stream"@,
                    seq![("id"@, song_id@)] + auth_pairs(
                        self.username@,
                        token_for(self.password@, salt@),
                        salt@,
                    ),
                ),
            ),
    {
        let joined = match join_url(self.base_url.as_str(), "rest/stream") {
            Ok(u) => u,
            Err(e) => {
                return Err(SubsonicError::Url(e));
            },
        };
        let token = self.token(salt);
        let mut pairs: Vec<(String, String)> = Vec::new();
        pairs.push(pair("id", song_id));
        pairs.push(pair("u", self.username.as_str()));
        pairs.push(pair("t", token.as_str()));
        pairs.push(pair("s", salt));
        pairs.push(pair("v", API_VERSION));
        pairs.push(pair("c", CLIENT_NAME));
        proof {
            assert(pairs_view(pairs@) =~= seq![("id"@, song_id@)] + auth_pairs(
                self.username@,
                token_for(self.password@, salt@),
                salt@,
            ));
        }
        match append_query(joined.as_str(), &pairs) {
            Ok(u) => Ok(u),
            Err(e) => Err(SubsonicError::Url(e)),
        }
    }

    /// The stream URL of a song for the outcome of drawing a salt: with a
    /// drawn salt, exactly the URL `stream_url_salted` builds with it (so never
    /// `NoSalt`); without one, the `NoSalt` error.
    pub fn stream_url_with_drawn_salt(&self, song_id: &str, drawn: Option<String>) -> (r: Result<
        String,
        SubsonicError,
    >)
        ensures
            drawn is None ==> r == Err::<String, SubsonicError>(SubsonicError::NoSalt),
            drawn matches Some(salt) ==> url_result(
                r,
                request_url(
                    self.base_url@,
                    "rest/stream"@,
                    seq![("id"@, song_id@)] + auth_pairs(
                        self.username@,
                        token_for(self.password@, salt@),
                        salt@,
                    ),
                ),
            ),
            drawn is Some ==> r != Err::<String, SubsonicError>(SubsonicError::NoSalt),
    {
        match drawn {
            Some(salt) => self.stream_url_salted(song_id, salt.as_str()),
            None => Err(SubsonicError::NoSalt),
        }
    }

    /// The stream URL of a song with a fresh random salt, to hand to the
    /// player; the `NoSalt` error when no salt could be drawn.
    pub fn stream_url(&self, song_id: &str) -> (r: Result<String, SubsonicError>)
        ensures
            r == Err::<String, SubsonicError>(SubsonicError::NoSalt) || exists|n: u64|
                url_result(
                    r,
                    request_url(
                        self.base_url@,
                        "rest/stream"@,
                        seq![("id"@, song_id@)] + auth_pairs(
                            self.username@,
                            token_for(self.password@, hex_digits(n as nat, 16)),
                            hex_digits(n as nat, 16),
                        ),
                    ),
                ),
    {
        self.stream_url_with_drawn_salt(song_id, random_salt())
    }
}

} // verus!
