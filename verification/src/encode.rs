//! Response encoding: from the closed set of `InteractionResponse` variants
//! to the exact tagged JSON text the calling platform expects.
//!
//! A probe acknowledgement encodes as `{"type":1}`; a channel message as
//! `{"type":4,"data":{...}}`, where the payload object holds exactly the
//! fields that are set — an unset field is omitted entirely, never `null`.

use vstd::prelude::*;

use crate::discord::{ChannelMessageWithSourceData, InteractionResponse, MessageDataModel,
    ResponseModel};
use crate::strutil::push_char;

verus! {

/// The lowercase hex digit character of a nibble.
pub open spec fn hex_char_of(n: u8) -> char {
    if n == 0 {
        '0'
    } else if n == 1 {
        '1'
    } else if n == 2 {
        '2'
    } else if n == 3 {
        '3'
    } else if n == 4 {
        '4'
    } else if n == 5 {
        '5'
    } else if n == 6 {
        '6'
    } else if n == 7 {
        '7'
    } else if n == 8 {
        '8'
    } else if n == 9 {
        '9'
    } else if n == 10 {
        'a'
    } else if n == 11 {
        'b'
    } else if n == 12 {
        'c'
    } else if n == 13 {
        'd'
    } else if n == 14 {
        'e'
    } else {
        'f'
    }
}

/// The decimal digit character of a value below ten.
pub open spec fn dec_char_of(n: u8) -> char {
    if n == 0 {
        '0'
    } else if n == 1 {
        '1'
    } else if n == 2 {
        '2'
    } else if n == 3 {
        '3'
    } else if n == 4 {
        '4'
    } else if n == 5 {
        '5'
    } else if n == 6 {
        '6'
    } else if n == 7 {
        '7'
    } else if n == 8 {
        '8'
    } else {
        '9'
    }
}

/// Decimal digits of a number, most significant first.
pub open spec fn dec_digits(n: nat) -> Seq<char>
    decreases n,
{
    if n < 10 {
        seq![dec_char_of(n as u8)]
    } else {
        dec_digits(n / 10) + seq![dec_char_of((n % 10) as u8)]
    }
}

/// JSON escape of one character inside a string literal: quote and
/// backslash are escaped, the common control characters take their short
/// escapes, other control characters take a `\u00..` escape, and every
/// other character stands for itself.
pub open spec fn escape_char(c: char) -> Seq<char> {
    if c == '"' {
        "\\\""@
    } else if c == '\\' {
        "\\\\"@
    } else if c == '\n' {
        "\\n"@
    } else if c == '\r' {
        "\\r"@
    } else if c == '\t' {
        "\\t"@
    } else if (c as u32) < 32 {
        "\\u00"@ + seq![hex_char_of((c as u32 / 16) as u8), hex_char_of((c as u32 % 16) as u8)]
    } else {
        seq![c]
    }
}

/// JSON escape of a whole text.
pub open spec fn escape_string(s: Seq<char>) -> Seq<char>
    decreases s.len(),
{
    if s.len() == 0 {
        Seq::empty()
    } else {
        escape_string(s.drop_last()) + escape_char(s.last())
    }
}

/// A JSON string literal: quotes around the escaped text.
pub open spec fn quoted(s: Seq<char>) -> Seq<char> {
    seq!['"'] + escape_string(s) + seq!['"']
}

/// Comma-separated concatenation of parts.
pub open spec fn comma_join(parts: Seq<Seq<char>>) -> Seq<char>
    decreases parts.len(),
{
    if parts.len() == 0 {
        Seq::empty()
    } else if parts.len() == 1 {
        parts[0]
    } else {
        comma_join(parts.drop_last()) + ","@ + parts.last()
    }
}

/// The texts of a sequence of strings.
pub open spec fn views_of(parts: Seq<String>) -> Seq<Seq<char>> {
    parts.map_values(|p: String| p@)
}

/// The encoded `tts` member.
pub open spec fn member_tts(b: bool) -> Seq<char> {
    if b {
        "\"tts\":true"@
    } else {
        "\"tts\":false"@
    }
}

/// The encoded `content` member.
pub open spec fn member_content(s: Seq<char>) -> Seq<char> {
    "\"content\":"@ + quoted(s)
}

/// The encoded `embeds` member: an array with one empty object per embed.
pub open spec fn member_embeds(es: Seq<()>) -> Seq<char> {
    "\"embeds\":["@ + comma_join(Seq::new(es.len(), |i: int| "{}"@)) + "]"@
}

/// The encoded `allowed_mentions` member.
pub open spec fn member_allowed_mentions() -> Seq<char> {
    "\"allowed_mentions\":null"@
}

/// The encoded `flags` member: the mask's decimal value.
pub open spec fn member_flags(f: u32) -> Seq<char> {
    "\"flags\":"@ + dec_digits(f as nat)
}

/// The encoded `components` member.
pub open spec fn member_components() -> Seq<char> {
    "\"components\":null"@
}

/// The encoded `attachments` member.
pub open spec fn member_attachments() -> Seq<char> {
    "\"attachments\":null"@
}

/// The members of a set optional field, or nothing for an unset one.
pub open spec fn opt_part(v: Option<Seq<char>>) -> Seq<Seq<char>> {
    match v {
        Some(t) => seq![t],
        None => Seq::empty(),
    }
}

/// The members present in an encoded message payload, in wire order. An
/// unset field contributes nothing.
pub open spec fn member_seq(d: MessageDataModel) -> Seq<Seq<char>> {
    opt_part(
        match d.tts {
            Some(b) => Some(member_tts(b)),
            None => None,
        },
    ) + opt_part(
        match d.content {
            Some(s) => Some(member_content(s)),
            None => None,
        },
    ) + opt_part(
        match d.embeds {
            Some(es) => Some(member_embeds(es)),
            None => None,
        },
    ) + opt_part(
        match d.allowed_mentions {
            Some(_) => Some(member_allowed_mentions()),
            None => None,
        },
    ) + opt_part(
        match d.flags {
            Some(f) => Some(member_flags(f)),
            None => None,
        },
    ) + opt_part(
        match d.components {
            Some(_) => Some(member_components()),
            None => None,
        },
    ) + opt_part(
        match d.attachments {
            Some(_) => Some(member_attachments()),
            None => None,
        },
    )
}

/// The encoded message payload object.
pub open spec fn spec_encode_data(d: MessageDataModel) -> Seq<char> {
    "{"@ + comma_join(member_seq(d)) + "}"@
}

/// The encoded response envelope: the variant's fixed integer tag, and for
/// a channel message the payload object.
pub open spec fn spec_encode_response(r: ResponseModel) -> Seq<char> {
    match r {
        ResponseModel::Pong => "{\"type\":1}"@,
        ResponseModel::ChannelMessageWithSource(d) => "{\"type\":4,\"data\":"@ + spec_encode_data(d)
            + "}"@,
    }
}

/// Encoding a channel message with only `content` set yields a payload
/// object holding exactly the one member `content` — no entry, `null` or
/// otherwise, for any unset field.
pub proof fn lemma_content_only_encodes_one_member(d: MessageDataModel)
    requires
        d.content is Some,
        d.tts is None,
        d.embeds is None,
        d.allowed_mentions is None,
        d.flags is None,
        d.components is None,
        d.attachments is None,
    ensures
        (d.content matches Some(c) && member_seq(d) =~= seq![member_content(c)]
            && spec_encode_data(d) == "{"@ + member_content(c) + "}"@),
{
    let c = d.content->0;
    assert(member_seq(d) =~= seq![member_content(c)]);
    assert(comma_join(member_seq(d)) == member_seq(d)[0]);
}

// ----- executable encoding -----

fn dec_char(n: u8) -> (c: char)
    requires
        n < 10,
    ensures
        c == dec_char_of(n),
{
    if n == 0 {
        '0'
    } else if n == 1 {
        '1'
    } else if n == 2 {
        '2'
    } else if n == 3 {
        '3'
    } else if n == 4 {
        '4'
    } else if n == 5 {
        '5'
    } else if n == 6 {
        '6'
    } else if n == 7 {
        '7'
    } else if n == 8 {
        '8'
    } else {
        '9'
    }
}

fn hex_char(n: u8) -> (c: char)
    requires
        n < 16,
    ensures
        c == hex_char_of(n),
{
    if n < 10 {
        dec_char(n)
    } else if n == 10 {
        'a'
    } else if n == 11 {
        'b'
    } else if n == 12 {
        'c'
    } else if n == 13 {
        'd'
    } else if n == 14 {
        'e'
    } else {
        'f'
    }
}

/// Decimal text of a 32-bit value.
fn u32_dec(n: u32) -> (s: String)
    ensures
        s@ == dec_digits(n as nat),
    decreases n,
{
    if n < 10 {
        let mut s = String::new();
        push_char(&mut s, dec_char(n as u8));
        proof {
            assert(s@ =~= seq![dec_char_of(n as u8)]);
        }
        s
    } else {
        proof {
            assert(n / 10 < n && n / 10 >= 1) by (nonlinear_arith)
                requires
                    n >= 10,
            ;
        }
        let mut s = u32_dec(n / 10);
        push_char(&mut s, dec_char((n % 10) as u8));
        proof {
            assert((n as nat) / 10 == (n / 10) as nat);
            assert((n as nat) % 10 == (n % 10) as nat);
            assert(s@ =~= dec_digits((n / 10) as nat) + seq![dec_char_of((n % 10) as u8)]);
        }
        s
    }
}

/// A JSON string literal holding `s`, with every character escaped as the
/// format requires.
fn json_quote(s: &str) -> (r: String)
    ensures
        r@ == quoted(s@),
{
    let n = s.unicode_len();
    let mut out = String::new();
    push_char(&mut out, '"');
    proof {
        assert(s@.take(0) =~= Seq::<char>::empty());
        assert(out@ =~= seq!['"'] + escape_string(s@.take(0)));
    }
    let mut i: usize = 0;
    while i < n
        invariant
            n == s@.len(),
            i <= n,
            out@ == seq!['"'] + escape_string(s@.take(i as int)),
        decreases n - i,
    {
        let c = s.get_char(i);
        if c == '"' {
            out.append("\\\"");
        } else if c == '\\' {
            out.append("\\\\");
        } else if c == '\n' {
            out.append("\\n");
        } else if c == '\r' {
            out.append("\\r");
        } else if c == '\t' {
            out.append("\\t");
        } else if (c as u32) < 32 {
            out.append("\\u00");
            push_char(&mut out, hex_char((c as u32 / 16) as u8));
            push_char(&mut out, hex_char((c as u32 % 16) as u8));
        } else {
            push_char(&mut out, c);
        }
        proof {
            assert(s@.take(i + 1).drop_last() =~= s@.take(i as int));
            assert(s@.take(i + 1).last() == s@[i as int]);
            assert(out@ =~= seq!['"'] + escape_string(s@.take(i + 1)));
        }
        i = i + 1;
    }
    proof {
        assert(s@.take(n as int) =~= s@);
    }
    push_char(&mut out, '"');
    proof {
        assert(out@ =~= quoted(s@));
    }
    out
}

/// Comma-joined concatenation of the given parts.
fn join_comma(parts: &Vec<String>) -> (r: String)
    ensures
        r@ == comma_join(views_of(parts@)),
{
    let mut out = String::new();
    let mut i: usize = 0;
    proof {
        assert(views_of(parts@).take(0) =~= Seq::<Seq<char>>::empty());
    }
    while i < parts.len()
        invariant
            i <= parts@.len(),
            out@ == comma_join(views_of(parts@).take(i as int)),
        decreases parts@.len() - i,
    {
        if i > 0 {
            out.append(",");
        }
        out.append(parts[i].as_str());
        proof {
            let m = views_of(parts@);
            assert(m.take(i + 1).last() == m[i as int]);
            if i == 0 {
                assert(m.take(1)[0] == m[0]);
                assert(comma_join(m.take(1)) == m[0]);
            } else {
                assert(m.take(i + 1).drop_last() =~= m.take(i as int));
                assert(comma_join(m.take(i + 1)) == comma_join(m.take(i as int)) + ","@ + m[
                    i as int
                ]);
            }
            assert(out@ =~= comma_join(m.take(i + 1)));
        }
        i = i + 1;
    }
    proof {
        assert(views_of(parts@).take(parts@.len() as int) =~= views_of(parts@));
    }
    out
}

/// The encoded payload object of a channel message: exactly the members
/// that are set, in wire order.
#[verifier::rlimit(80)]
fn encode_message_data(d: &ChannelMessageWithSourceData) -> (r: String)
    ensures
        r@ == spec_encode_data(d@),
{
    let mut parts: Vec<String> = Vec::new();
    match &d.tts {
        Some(b) => {
            if *b {
                parts.push(String::from_str("\"tts\":true"));
            } else {
                parts.push(String::from_str("\"tts\":false"));
            }
        },
        None => {},
    }
    proof {
        assert(views_of(parts@) =~= opt_part(
            match d@.tts {
                Some(b) => Some(member_tts(b)),
                None => None,
            },
        ));
    }
    let ghost p1 = views_of(parts@);
    match &d.content {
        Some(s) => {
            let mut m = String::from_str("\"content\":");
            let q = json_quote(s.as_str());
            m.append(q.as_str());
            parts.push(m);
        },
        None => {},
    }
    proof {
        assert(views_of(parts@) =~= p1 + opt_part(
            match d@.content {
                Some(s) => Some(member_content(s)),
                None => None,
            },
        ));
    }
    let ghost p2 = views_of(parts@);
    match &d.embeds {
        Some(es) => {
            let mut braces: Vec<String> = Vec::new();
            let mut k: usize = 0;
            while k < es.len()
                invariant
                    k <= es@.len(),
                    braces@.len() == k,
                    forall|i: int| 0 <= i < k ==> braces@[i]@ == "{}"@,
                decreases es@.len() - k,
            {
                braces.push(String::from_str("{}"));
                k = k + 1;
            }
            let mut m = String::from_str("\"embeds\":[");
            let joined = join_comma(&braces);
            m.append(joined.as_str());
            m.append("]");
            proof {
                let es_model = d@.embeds->0;
                assert(es_model.len() == es@.len());
                assert(views_of(braces@) =~= Seq::new(es_model.len(), |i: int| "{}"@));
                assert(m@ =~= member_embeds(es_model));
            }
            parts.push(m);
        },
        None => {},
    }
    proof {
        assert(views_of(parts@) =~= p2 + opt_part(
            match d@.embeds {
                Some(es) => Some(member_embeds(es)),
                None => None,
            },
        ));
    }
    let ghost p3 = views_of(parts@);
    match &d.allowed_mentions {
        Some(_) => {
            parts.push(String::from_str("\"allowed_mentions\":null"));
        },
        None => {},
    }
    proof {
        assert(views_of(parts@) =~= p3 + opt_part(
            match d@.allowed_mentions {
                Some(_) => Some(member_allowed_mentions()),
                None => None,
            },
        ));
    }
    let ghost p4 = views_of(parts@);
    match &d.flags {
        Some(f) => {
            let mut m = String::from_str("\"flags\":");
            let digits = u32_dec(*f);
            m.append(digits.as_str());
            parts.push(m);
        },
        None => {},
    }
    proof {
        assert(views_of(parts@) =~= p4 + opt_part(
            match d@.flags {
                Some(f) => Some(member_flags(f)),
                None => None,
            },
        ));
    }
    let ghost p5 = views_of(parts@);
    match &d.components {
        Some(_) => {
            parts.push(String::from_str("\"components\":null"));
        },
        None => {},
    }
    proof {
        assert(views_of(parts@) =~= p5 + opt_part(
            match d@.components {
                Some(_) => Some(member_components()),
                None => None,
            },
        ));
    }
    let ghost p6 = views_of(parts@);
    match &d.attachments {
        Some(_) => {
            parts.push(String::from_str("\"attachments\":null"));
        },
        None => {},
    }
    proof {
        assert(views_of(parts@) =~= p6 + opt_part(
            match d@.attachments {
                Some(_) => Some(member_attachments()),
                None => None,
            },
        ));
        assert(views_of(parts@) =~= member_seq(d@));
    }
    let mut out = String::from_str("{");
    let joined = join_comma(&parts);
    out.append(joined.as_str());
    out.append("}");
    proof {
        assert(out@ =~= spec_encode_data(d@));
    }
    out
}

impl InteractionResponse {
    /// Encode the response envelope to its exact wire text: `{"type":1}`
    /// for a probe acknowledgement, `{"type":4,"data":{...}}` for a channel
    /// message whose payload holds exactly the fields that are set.
    pub fn encode(&self) -> (s: String)
        ensures
            s@ == spec_encode_response(self@),
    {
        match self {
            InteractionResponse::Pong => String::from_str("{\"type\":1}"),
            InteractionResponse::ChannelMessageWithSource(d) => {
                let mut out = String::from_str("{\"type\":4,\"data\":");
                let body = encode_message_data(d);
                out.append(body.as_str());
                out.append("}");
                proof {
                    assert(out@ =~= spec_encode_response(self@));
                }
                out
            },
        }
    }
}

} // verus!
