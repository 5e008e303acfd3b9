//! WiFi join URIs (`WIFI:T:WPA;S:net;P:pass;;`) and the `nmcli` command that
//! joins the network they describe.

use crate::decode::{is_recognized, recognized, recognized_prefix};
use std::collections::HashMap;
use vstd::prelude::*;
use vstd::string::{StrSliceExecFns, StringExecFns};
use vstd::utf8::{decode_utf8, encode_utf8, valid_utf8};

verus! {

/// The parameters that a WiFi URI can carry.
#[derive(Clone, Copy, Debug, PartialEq, Eq, Hash, Structural)]
pub enum WifiUriParamKey {
    /// `T`: the security type.
    SecurityType,
    /// `R`: the transition-disable flag.
    TransitionDisable,
    /// `S`: the network's name.
    Ssid,
    /// `H`: whether the network is hidden.
    Hidden,
    /// `I`: the SAE password identifier.
    SaePasswordIdentifier,
    /// `P`: the password.
    Password,
    /// `K`: the public key.
    PublicKey,
}

impl WifiUriParamKey {
    /// The parameter that the tag `tag` names, if it names one.
    pub open spec fn for_tag(tag: Seq<char>) -> Option<WifiUriParamKey> {
        if tag.len() != 1 {
            None
        } else if tag[0] == 'T' {
            Some(WifiUriParamKey::SecurityType)
        } else if tag[0] == 'R' {
            Some(WifiUriParamKey::TransitionDisable)
        } else if tag[0] == 'S' {
            Some(WifiUriParamKey::Ssid)
        } else if tag[0] == 'H' {
            Some(WifiUriParamKey::Hidden)
        } else if tag[0] == 'I' {
            Some(WifiUriParamKey::SaePasswordIdentifier)
        } else if tag[0] == 'P' {
            Some(WifiUriParamKey::Password)
        } else if tag[0] == 'K' {
            Some(WifiUriParamKey::PublicKey)
        } else {
            None
        }
    }

    /// Looks the tag `key` up.
    pub fn lookup(key: &str) -> (found: Option<WifiUriParamKey>)
        ensures
            found == Self::for_tag(key@),
    {
        if key.unicode_len() != 1 {
            return None;
        }
        let tag = key.get_char(0);
        if tag == 'T' {
            Some(WifiUriParamKey::SecurityType)
        } else if tag == 'R' {
            Some(WifiUriParamKey::TransitionDisable)
        } else if tag == 'S' {
            Some(WifiUriParamKey::Ssid)
        } else if tag == 'H' {
            Some(WifiUriParamKey::Hidden)
        } else if tag == 'I' {
            Some(WifiUriParamKey::SaePasswordIdentifier)
        } else if tag == 'P' {
            Some(WifiUriParamKey::Password)
        } else if tag == 'K' {
            Some(WifiUriParamKey::PublicKey)
        } else {
            None
        }
    }

    /// The parameter that the tag `key` names. The tag must name one.
    pub fn from_str(key: &str) -> (named: WifiUriParamKey)
        requires
            Self::for_tag(key@) is Some,
        ensures
            Self::for_tag(key@) == Some(named),
    {
        match Self::lookup(key) {
            Some(named) => named,
            None => vstd::pervasive::unreached(),
        }
    }
}

/// The value of an ASCII hexadecimal digit.
pub open spec fn hex_digit(byte: u8) -> Option<u8> {
    if 0x30 <= byte <= 0x39 {
        Some((byte - 0x30) as u8)
    } else if 0x41 <= byte <= 0x46 {
        Some((byte - 0x41 + 10) as u8)
    } else if 0x61 <= byte <= 0x66 {
        Some((byte - 0x61 + 10) as u8)
    } else {
        None
    }
}

/// Percent-decoding: each `%` that two hexadecimal digits follow stands for the
/// byte the digits spell; every other byte stands for itself.
pub open spec fn percent_decoded(bytes: Seq<u8>) -> Seq<u8>
    decreases bytes.len(),
{
    if bytes.len() == 0 {
        Seq::empty()
    } else if bytes[0] == 0x25 && bytes.len() >= 3 && hex_digit(bytes[1]) is Some && hex_digit(
        bytes[2],
    ) is Some {
        seq![(hex_digit(bytes[1])->0 * 16 + hex_digit(bytes[2])->0) as u8] + percent_decoded(
            bytes.skip(3),
        )
    } else {
        seq![bytes[0]] + percent_decoded(bytes.skip(1))
    }
}

/// The text that a percent-encoded value stands for, if its decoded bytes are
/// UTF-8.
pub open spec fn decoded_value(raw: Seq<char>) -> Option<Seq<char>> {
    let bytes = percent_decoded(encode_utf8(raw));
    if valid_utf8(bytes) {
        Some(decode_utf8(bytes))
    } else {
        None
    }
}

/// The error of a failed UTF-8 decoding, carried through unread.
#[verifier::external_type_specification]
#[verifier::external_body]
pub struct ExUtf8Error(core::str::Utf8Error);

/// Calls `percent_encoding::percent_decode_str` and then `decode_utf8` on its
/// result. Claimed: the bytes of `raw` are percent-decoded as `percent_decoded`
/// says, and the call succeeds exactly where those bytes are UTF-8, with the
/// text they encode.
#[verifier::external_body]
fn percent_decode(raw: &str) -> (res: Result<String, core::str::Utf8Error>)
    ensures
        res is Ok <==> decoded_value(raw@) is Some,
        res matches Ok(text) ==> decoded_value(raw@) == Some(text@),
{
    percent_encoding::percent_decode_str(raw).decode_utf8().map(|text| text.into_owned())
}

/// The error type of `shlex`, carried through unread.
#[verifier::external_type_specification]
#[verifier::external_body]
pub struct ExQuoteError(shlex::QuoteError);

/// The word as `shlex` quotes it for a POSIX shell. It is a function of the word
/// alone.
pub uninterp spec fn shell_quoted(word: Seq<char>) -> Seq<char>;

/// Calls `shlex::try_quote`. Claimed: the call fails exactly on a word that
/// holds a NUL character, and otherwise returns `shell_quoted` of the word.
#[verifier::external_body]
fn shell_quote(word: &str) -> (res: Result<String, shlex::QuoteError>)
    ensures
        res is Err <==> word@.contains('\0'),
        res matches Ok(quoted) ==> quoted@ == shell_quoted(word@),
{
    shlex::try_quote(word).map(|quoted| quoted.into_owned())
}

/// Why a text is no WiFi URI that this library accepts, with the tag or the
/// value at fault where there is one.
#[derive(Debug, PartialEq, Eq)]
pub enum WifiUriError {
    /// The text does not start with `WIFI:`.
    MissingPrefix,
    /// The text ends where a parameter or the closing `;` is due.
    Unterminated,
    /// No `:` ends the tag of a parameter.
    MissingColon,
    /// No `;` ends the value of the parameter `tag`.
    UnterminatedValue { tag: String },
    /// A value is not UTF-8 once percent-decoded.
    InvalidUtf8,
    /// The tag `tag` names no parameter.
    UnknownKey { tag: String },
    /// The parameter with the tag `tag` occurs twice.
    DuplicateKey { tag: String },
    /// The transition-disable flag is given and is `value`, not `false`.
    UnsupportedTransitionDisable { value: String },
    /// The security type is given and is `value`, not `WPA`.
    UnsupportedSecurity { value: String },
    /// The network's name is missing.
    MissingSsid,
    /// The hidden flag is given and is neither `true` nor `false`.
    InvalidHidden,
    /// Parameters are given that have no place in a connection.
    UnsupportedFlags { sae_password_identifier: Option<String>, public_key: Option<String> },
}

/// A fault as a mathematical value.
pub enum WifiUriFault {
    MissingPrefix,
    Unterminated,
    MissingColon,
    UnterminatedValue { tag: Seq<char> },
    InvalidUtf8,
    UnknownKey { tag: Seq<char> },
    DuplicateKey { tag: Seq<char> },
    UnsupportedTransitionDisable { value: Seq<char> },
    UnsupportedSecurity { value: Seq<char> },
    MissingSsid,
    InvalidHidden,
    UnsupportedFlags { sae_password_identifier: Option<Seq<char>>, public_key: Option<Seq<char>> },
}

/// The view of a text that may be missing.
pub open spec fn text_view(text: Option<String>) -> Option<Seq<char>> {
    match text {
        Some(text) => Some(text@),
        None => None,
    }
}

impl View for WifiUriError {
    type V = WifiUriFault;

    open spec fn view(&self) -> WifiUriFault {
        match *self {
            WifiUriError::MissingPrefix => WifiUriFault::MissingPrefix,
            WifiUriError::Unterminated => WifiUriFault::Unterminated,
            WifiUriError::MissingColon => WifiUriFault::MissingColon,
            WifiUriError::UnterminatedValue { tag } => WifiUriFault::UnterminatedValue { tag: tag@ },
            WifiUriError::InvalidUtf8 => WifiUriFault::InvalidUtf8,
            WifiUriError::UnknownKey { tag } => WifiUriFault::UnknownKey { tag: tag@ },
            WifiUriError::DuplicateKey { tag } => WifiUriFault::DuplicateKey { tag: tag@ },
            WifiUriError::UnsupportedTransitionDisable { value } => {
                WifiUriFault::UnsupportedTransitionDisable { value: value@ }
            },
            WifiUriError::UnsupportedSecurity { value } => WifiUriFault::UnsupportedSecurity {
                value: value@,
            },
            WifiUriError::MissingSsid => WifiUriFault::MissingSsid,
            WifiUriError::InvalidHidden => WifiUriFault::InvalidHidden,
            WifiUriError::UnsupportedFlags { sae_password_identifier, public_key } => {
                WifiUriFault::UnsupportedFlags {
                    sae_password_identifier: text_view(sae_password_identifier),
                    public_key: text_view(public_key),
                }
            },
        }
    }
}

/// The parameters of a URI as a mathematical value.
pub type ParamsView = Map<WifiUriParamKey, Seq<char>>;

/// A connection as a mathematical value.
pub struct ConnectionView {
    pub ssid: Seq<char>,
    pub password: Option<Seq<char>>,
    pub hidden: bool,
}

/// What is needed to join a network.
#[derive(Debug, PartialEq, Eq)]
pub struct WifiConnection {
    pub ssid: String,
    pub password: Option<String>,
    pub hidden: bool,
}

impl View for WifiConnection {
    type V = ConnectionView;

    open spec fn view(&self) -> ConnectionView {
        ConnectionView {
            ssid: self.ssid@,
            password: match self.password {
                Some(password) => Some(password@),
                None => None,
            },
            hidden: self.hidden,
        }
    }
}

/// The parameters that the text `rest` lists after those of `seen`: a run of
/// `tag:value;` closed by one more `;`, no tag twice, each value
/// percent-decoded. Of several faults the first in reading order is reported.
pub open spec fn params_spec(rest: Seq<char>, seen: ParamsView) -> Result<ParamsView, WifiUriFault>
    decreases rest.len(),
    via params_spec_decreases
{
    if rest =~= seq![';'] {
        Ok(seen)
    } else if rest.len() == 0 {
        Err(WifiUriFault::Unterminated)
    } else {
        match rest.index_of_first(':') {
            None => Err(WifiUriFault::MissingColon),
            Some(colon) => {
                let tag = rest.subrange(0, colon);
                let tail = rest.skip(colon + 1);
                match tail.index_of_first(';') {
                    None => Err(WifiUriFault::UnterminatedValue { tag }),
                    Some(end) => match decoded_value(tail.subrange(0, end)) {
                        None => Err(WifiUriFault::InvalidUtf8),
                        Some(value) => match WifiUriParamKey::for_tag(tag) {
                            None => Err(WifiUriFault::UnknownKey { tag }),
                            Some(key) => if seen.contains_key(key) {
                                Err(WifiUriFault::DuplicateKey { tag })
                            } else {
                                params_spec(tail.skip(end + 1), seen.insert(key, value))
                            },
                        },
                    },
                }
            },
        }
    }
}

#[via_fn]
proof fn params_spec_decreases(rest: Seq<char>, seen: ParamsView) {
    rest.index_of_first_ensures(':');
    if rest.index_of_first(':') is Some {
        let colon = rest.index_of_first(':')->0;
        rest.skip(colon + 1).index_of_first_ensures(';');
    }
}

/// The value given for `key`, if one is.
pub open spec fn given(params: ParamsView, key: WifiUriParamKey) -> Option<Seq<char>> {
    if params.contains_key(key) {
        Some(params[key])
    } else {
        None
    }
}

/// The connection that a set of parameters describes. Security, if given, is
/// `WPA`; the transition-disable flag, if given, is `false`; the name is given;
/// the hidden flag is `true` or `false` and absent means `false`; nothing else
/// but a password is given.
pub open spec fn connection_spec(params: ParamsView) -> Result<ConnectionView, WifiUriFault> {
    if params.contains_key(WifiUriParamKey::TransitionDisable)
        && params[WifiUriParamKey::TransitionDisable] != "false"@ {
        Err(
            WifiUriFault::UnsupportedTransitionDisable {
                value: params[WifiUriParamKey::TransitionDisable],
            },
        )
    } else if params.contains_key(WifiUriParamKey::SecurityType)
        && params[WifiUriParamKey::SecurityType] != "WPA"@ {
        Err(WifiUriFault::UnsupportedSecurity { value: params[WifiUriParamKey::SecurityType] })
    } else if !params.contains_key(WifiUriParamKey::Ssid) {
        Err(WifiUriFault::MissingSsid)
    } else if params.contains_key(WifiUriParamKey::Hidden) && params[WifiUriParamKey::Hidden]
        != "true"@ && params[WifiUriParamKey::Hidden] != "false"@ {
        Err(WifiUriFault::InvalidHidden)
    } else if params.contains_key(WifiUriParamKey::SaePasswordIdentifier) || params.contains_key(
        WifiUriParamKey::PublicKey,
    ) {
        Err(
            WifiUriFault::UnsupportedFlags {
                sae_password_identifier: given(params, WifiUriParamKey::SaePasswordIdentifier),
                public_key: given(params, WifiUriParamKey::PublicKey),
            },
        )
    } else {
        Ok(
            ConnectionView {
                ssid: params[WifiUriParamKey::Ssid],
                password: given(params, WifiUriParamKey::Password),
                hidden: params.contains_key(WifiUriParamKey::Hidden)
                    && params[WifiUriParamKey::Hidden] == "true"@,
            },
        )
    }
}

/// The connection that the text `uri` describes, or why it describes none.
pub open spec fn wifi_uri_spec(uri: Seq<char>) -> Result<ConnectionView, WifiUriFault> {
    if !recognized(uri) {
        Err(WifiUriFault::MissingPrefix)
    } else {
        match params_spec(uri.skip(5), Map::empty()) {
            Err(error) => Err(error),
            Ok(params) => connection_spec(params),
        }
    }
}

/// The view of a parse result.
pub open spec fn parsed_view(parsed: Result<WifiConnection, WifiUriError>) -> Result<
    ConnectionView,
    WifiUriFault,
> {
    match parsed {
        Ok(connection) => Ok(connection@),
        Err(error) => Err(error@),
    }
}

/// The parameters read so far. Each is filed under the number of its key.
struct Params {
    filed: HashMap<u8, String>,
}

impl WifiUriParamKey {
    /// The number under which the parameter is filed.
    pub open spec fn number(self) -> u8 {
        match self {
            WifiUriParamKey::SecurityType => 0,
            WifiUriParamKey::TransitionDisable => 1,
            WifiUriParamKey::Ssid => 2,
            WifiUriParamKey::Hidden => 3,
            WifiUriParamKey::SaePasswordIdentifier => 4,
            WifiUriParamKey::Password => 5,
            WifiUriParamKey::PublicKey => 6,
        }
    }

    fn filed_under(self) -> (number: u8)
        ensures
            number == self.number(),
    {
        match self {
            WifiUriParamKey::SecurityType => 0,
            WifiUriParamKey::TransitionDisable => 1,
            WifiUriParamKey::Ssid => 2,
            WifiUriParamKey::Hidden => 3,
            WifiUriParamKey::SaePasswordIdentifier => 4,
            WifiUriParamKey::Password => 5,
            WifiUriParamKey::PublicKey => 6,
        }
    }
}

impl Params {
    spec fn view(self) -> ParamsView {
        Map::new(
            |key: WifiUriParamKey| self.filed@.contains_key(key.number()),
            |key: WifiUriParamKey| self.filed@[key.number()]@,
        )
    }

    fn new() -> (params: Params)
        ensures
            params@ == Map::<WifiUriParamKey, Seq<char>>::empty(),
    {
        let params = Params { filed: HashMap::new() };
        assert(params@ =~= Map::<WifiUriParamKey, Seq<char>>::empty());
        params
    }

    fn contains(&self, key: WifiUriParamKey) -> (held: bool)
        ensures
            held == self@.contains_key(key),
    {
        broadcast use vstd::std_specs::hash::group_hash_axioms;

        let number = key.filed_under();
        self.filed.contains_key(&number)
    }

    fn insert(self, key: WifiUriParamKey, value: String) -> (params: Params)
        ensures
            params@ == self@.insert(key, value@),
    {
        broadcast use vstd::std_specs::hash::group_hash_axioms;

        let mut filed = self.filed;
        let _ = filed.insert(key.filed_under(), value);
        let params = Params { filed };
        assert(params@ =~= self@.insert(key, value@));
        params
    }

    /// Takes the value of `key` out, if there is one.
    fn take(&mut self, key: WifiUriParamKey) -> (value: Option<String>)
        ensures
            final(self)@ == old(self)@.remove(key),
            match value {
                Some(text) => old(self)@.contains_key(key) && old(self)@[key] == text@,
                None => !old(self)@.contains_key(key),
            },
    {
        broadcast use vstd::std_specs::hash::group_hash_axioms;

        let number = key.filed_under();
        let value = self.filed.remove(&number);
        assert(self@ =~= old(self)@.remove(key));
        value
    }
}

/// The first place at or after `from` where `wanted` stands in `text`.
fn find_char(text: &str, from: usize, wanted: char) -> (found: Option<usize>)
    requires
        from <= text@.len(),
    ensures
        match found {
            Some(at) => text@.skip(from as int).index_of_first(wanted) == Some(at - from) && from
                <= at < text@.len(),
            None => text@.skip(from as int).index_of_first(wanted) is None,
        },
{
    let len = text.unicode_len();
    let ghost rest = text@.skip(from as int);
    let mut at: usize = from;
    while at < len
        invariant
            from <= at <= len,
            len == text@.len(),
            rest == text@.skip(from as int),
            forall|k: int| 0 <= k < at - from ==> rest[k] != wanted,
        decreases len - at,
    {
        if text.get_char(at) == wanted {
            proof {
                rest.index_of_first_ensures(wanted);
                assert(rest[at - from] == wanted);
                assert(rest.contains(wanted));
            }
            return Some(at);
        }
        at += 1;
    }
    proof {
        rest.index_of_first_ensures(wanted);
    }
    None
}

/// Whether `value` reads `wanted`.
fn reads(value: &String, wanted: &str) -> (same: bool)
    ensures
        same == (value@ == wanted@),
{
    let wanted = wanted.to_owned();
    *value == wanted
}

/// Reads the parameters that `uri` lists from its character `from` on.
fn read_params(uri: &str, from: usize) -> (read: Result<Params, WifiUriError>)
    requires
        from <= uri@.len(),
    ensures
        match read {
            Ok(params) => params_spec(uri@.skip(from as int), Map::empty()) == Ok::<
                ParamsView,
                WifiUriFault,
            >(params@),
            Err(error) => params_spec(uri@.skip(from as int), Map::empty()) == Err::<
                ParamsView,
                WifiUriFault,
            >(error@),
        },
{
    let len = uri.unicode_len();
    let ghost whole = params_spec(uri@.skip(from as int), Map::empty());
    let mut params = Params::new();
    let mut at: usize = from;
    loop
        invariant
            from <= at <= len,
            len == uri@.len(),
            whole == params_spec(uri@.skip(from as int), Map::empty()),
            whole == params_spec(uri@.skip(at as int), params@),
        decreases len - at,
    {
        let ghost rest = uri@.skip(at as int);
        if at < len && len - at == 1 && uri.get_char(at) == ';' {
            assert(rest =~= seq![';']);
            return Ok(params);
        }
        assert(!(rest =~= seq![';'])) by {
            if rest =~= seq![';'] {
                assert(rest.len() == 1);
                assert(rest[0] == ';');
            }
        }
        if at == len {
            return Err(WifiUriError::Unterminated);
        }
        let colon = match find_char(uri, at, ':') {
            Some(colon) => colon,
            None => {
                return Err(WifiUriError::MissingColon);
            },
        };
        let ghost tail = rest.skip(colon - at + 1);
        assert(tail =~= uri@.skip(colon + 1));
        let tag = uri.substring_char(at, colon);
        assert(tag@ =~= rest.subrange(0, colon - at));
        let end = match find_char(uri, colon + 1, ';') {
            Some(end) => end,
            None => {
                return Err(WifiUriError::UnterminatedValue { tag: tag.to_owned() });
            },
        };
        let raw = uri.substring_char(colon + 1, end);
        assert(raw@ =~= tail.subrange(0, end - colon - 1));
        assert(tail.skip(end - colon - 1 + 1) =~= uri@.skip(end + 1));
        let value = match percent_decode(raw) {
            Ok(value) => value,
            Err(_) => {
                return Err(WifiUriError::InvalidUtf8);
            },
        };
        let key = match WifiUriParamKey::lookup(tag) {
            Some(key) => key,
            None => {
                return Err(WifiUriError::UnknownKey { tag: tag.to_owned() });
            },
        };
        if params.contains(key) {
            return Err(WifiUriError::DuplicateKey { tag: tag.to_owned() });
        }
        params = params.insert(key, value);
        at = end + 1;
    }
}

/// Makes a connection of the parameters read.
fn connect(params: Params) -> (made: Result<WifiConnection, WifiUriError>)
    ensures
        parsed_view(made) == connection_spec(params@),
{
    let mut params = params;
    if let Some(value) = params.take(WifiUriParamKey::TransitionDisable) {
        if !reads(&value, "false") {
            return Err(WifiUriError::UnsupportedTransitionDisable { value });
        }
    }
    if let Some(value) = params.take(WifiUriParamKey::SecurityType) {
        if !reads(&value, "WPA") {
            return Err(WifiUriError::UnsupportedSecurity { value });
        }
    }
    let ssid = match params.take(WifiUriParamKey::Ssid) {
        Some(ssid) => ssid,
        None => {
            return Err(WifiUriError::MissingSsid);
        },
    };
    let password = params.take(WifiUriParamKey::Password);
    let hidden = match params.take(WifiUriParamKey::Hidden) {
        Some(flag) => if reads(&flag, "true") {
            true
        } else if reads(&flag, "false") {
            false
        } else {
            return Err(WifiUriError::InvalidHidden);
        },
        None => false,
    };
    let sae_password_identifier = params.take(WifiUriParamKey::SaePasswordIdentifier);
    let public_key = params.take(WifiUriParamKey::PublicKey);
    if sae_password_identifier.is_some() || public_key.is_some() {
        return Err(WifiUriError::UnsupportedFlags { sae_password_identifier, public_key });
    }
    Ok(WifiConnection { ssid, password, hidden })
}

/// Reads a WiFi URI: `WIFI:`, then parameters `tag:value;` in any order, then a
/// closing `;`. Returns the connection it describes, or the first fault found.
pub fn try_parse_wifi_uri(wifi_uri: &str) -> (parsed: Result<WifiConnection, WifiUriError>)
    ensures
        parsed_view(parsed) == wifi_uri_spec(wifi_uri@),
{
    if !is_recognized(wifi_uri) {
        return Err(WifiUriError::MissingPrefix);
    }
    assert(recognized_prefix().len() == 5);
    match read_params(wifi_uri, 5) {
        Ok(params) => connect(params),
        Err(error) => Err(error),
    }
}

/// The connection that a WiFi URI describes. The text must be a URI that
/// describes one; `try_parse_wifi_uri` is for a text of which that is not known.
pub fn parse_wifi_uri(wifi_uri: &str) -> (connection: WifiConnection)
    requires
        wifi_uri_spec(wifi_uri@) is Ok,
    ensures
        wifi_uri_spec(wifi_uri@) == Ok::<ConnectionView, WifiUriFault>(connection@),
{
    match try_parse_wifi_uri(wifi_uri) {
        Ok(connection) => connection,
        Err(_) => vstd::pervasive::unreached(),
    }
}

/// The `nmcli` command made of words that are already quoted for the shell:
/// the name, then the password if there is one, then the mark of a hidden
/// network.
pub open spec fn nmcli_words(ssid: Seq<char>, password: Option<Seq<char>>, hidden: bool) -> Seq<
    char,
> {
    "nmcli device wifi connect "@ + ssid + (match password {
        Some(password) => " password "@ + password,
        None => Seq::empty(),
    }) + (if hidden {
        " hidden yes"@
    } else {
        Seq::empty()
    })
}

/// The `nmcli` command that joins the network of `connection`, each word
/// quoted for the shell.
pub open spec fn nmcli_command(connection: ConnectionView) -> Seq<char> {
    nmcli_words(
        shell_quoted(connection.ssid),
        match connection.password {
            Some(password) => Some(shell_quoted(password)),
            None => None,
        },
        connection.hidden,
    )
}

/// Puts the `nmcli` command together from words that are already quoted for
/// the shell.
pub fn nmcli_from_quoted(ssid: &str, password: Option<&str>, hidden: bool) -> (command: String)
    ensures
        command@ == nmcli_words(
            ssid@,
            match password {
                Some(password) => Some(password@),
                None => None,
            },
            hidden,
        ),
{
    let mut command = String::from_str("nmcli device wifi connect ");
    command.append(ssid);
    if let Some(password) = password {
        command.append(" password ");
        command.append(password);
    }
    if hidden {
        command.append(" hidden yes");
    }
    assert(command@ =~= nmcli_words(
        ssid@,
        match password {
            Some(password) => Some(password@),
            None => None,
        },
        hidden,
    ));
    command
}

impl ConnectionView {
    /// Whether the connection can be written as a shell command: neither name
    /// nor password holds a NUL character.
    pub open spec fn quotable(self) -> bool {
        &&& !self.ssid.contains('\0')
        &&& match self.password {
            Some(password) => !password.contains('\0'),
            None => true,
        }
    }
}

impl WifiConnection {
    /// The `nmcli` command that joins the network, if name and password can be
    /// quoted for the shell.
    pub fn try_render_to_nmcli(&self) -> (command: Option<String>)
        ensures
            command is Some <==> self@.quotable(),
            command matches Some(text) ==> text@ == nmcli_command(self@),
    {
        let ssid = match shell_quote(self.ssid.as_str()) {
            Ok(ssid) => ssid,
            Err(_) => {
                return None;
            },
        };
        match &self.password {
            Some(password) => match shell_quote(password.as_str()) {
                Ok(password) => Some(
                    nmcli_from_quoted(ssid.as_str(), Some(password.as_str()), self.hidden),
                ),
                Err(_) => None,
            },
            None => Some(nmcli_from_quoted(ssid.as_str(), None, self.hidden)),
        }
    }

    /// The `nmcli` command that joins the network. Name and password must be
    /// free of NUL characters, which no shell word can hold.
    pub fn render_to_nmcli(&self) -> (command: String)
        requires
            self@.quotable(),
        ensures
            command@ == nmcli_command(self@),
    {
        match self.try_render_to_nmcli() {
            Some(command) => command,
            None => vstd::pervasive::unreached(),
        }
    }
}

} // verus!
