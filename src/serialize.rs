//! The presence value as the JSON object that the peer reads.
use vstd::prelude::*;
use crate::activity::{
    type_code, Activity, ActivityButton, ActivityModel, AssetsModel, ButtonModel, PartyModel,
    SecretsModel,
};
use crate::json::{decimal, escape_json, escaped, members, push_decimal, push_members, texts_of};

verus! {

/// The error type of `std::fmt`, which writing into a `String` never returns.
#[verifier::external_type_specification]
#[verifier::external_body]
pub struct ExFmtError(std::fmt::Error);

/// A member `prefix` + value + `"`, where the value is there.
pub open spec fn quoted(prefix: Seq<char>, v: Option<Seq<char>>) -> Option<Seq<char>> {
    match v {
        Some(x) => Some(prefix + x + "\""@),
        None => None,
    }
}

/// The escaped form of the text, where it is there.
pub open spec fn escaped_opt(v: Option<Seq<char>>) -> Option<Seq<char>> {
    match v {
        Some(x) => Some(escaped(x)),
        None => None,
    }
}

/// A member `prefix` + the number in decimal, where the number is there.
pub open spec fn number(prefix: Seq<char>, v: Option<u128>) -> Option<Seq<char>> {
    match v {
        Some(n) => Some(prefix + decimal(n as nat)),
        None => None,
    }
}

pub open spec fn size_member(v: Option<(u8, u8)>) -> Option<Seq<char>> {
    match v {
        Some((cur, max)) => Some(
            "\"size\":["@ + decimal(cur as nat) + ","@ + decimal(max as nat) + "]"@,
        ),
        None => None,
    }
}

/// An object member: `open` (its key and `{`), the members there, and `}`.
pub open spec fn object(open: Seq<char>, fields: Seq<Option<Seq<char>>>) -> Seq<char> {
    open + members(fields) + "}"@
}

pub open spec fn timestamps_json(t: Option<(Option<u128>, Option<u128>)>) -> Seq<char> {
    match t {
        Some((start, end)) => if start is Some || end is Some {
            object(
                ",\"timestamps\":{"@,
                seq![number("\"start\":"@, start), number("\"end\":"@, end)],
            )
        } else {
            seq![]
        },
        None => seq![],
    }
}

pub open spec fn text_json(prefix: Seq<char>, v: Option<Seq<char>>) -> Seq<char> {
    match v {
        Some(x) => prefix + escaped(x) + "\""@,
        None => seq![],
    }
}

pub open spec fn party_json(p: Option<PartyModel>) -> Seq<char> {
    match p {
        Some(p) => object(
            ",\"party\":{"@,
            seq![quoted("\"id\":\""@, escaped_opt(p.id)), size_member(p.size)],
        ),
        None => seq![],
    }
}

pub open spec fn secrets_json(s: Option<SecretsModel>) -> Seq<char> {
    match s {
        Some(s) => object(
            ",\"secrets\":{"@,
            seq![
                quoted("\"join\":\""@, escaped_opt(s.join)),
                quoted("\"spectate\":\""@, escaped_opt(s.spectate)),
                quoted("\"match_id\":\""@, escaped_opt(s.match_id)),
            ],
        ),
        None => seq![],
    }
}

pub open spec fn assets_json(a: Option<AssetsModel>) -> Seq<char> {
    match a {
        Some(a) => object(
            ",\"assets\":{"@,
            seq![
                quoted("\"large_image\":\""@, escaped_opt(a.large_image)),
                quoted("\"large_text\":\""@, escaped_opt(a.large_text)),
                quoted("\"small_image\":\""@, escaped_opt(a.small_image)),
                quoted("\"small_text\":\""@, escaped_opt(a.small_text)),
            ],
        ),
        None => seq![],
    }
}

/// A button as an object: the escaped label, then the address.
pub open spec fn button_json(b: ButtonModel) -> Seq<char> {
    "{\"label\":\""@ + escaped(b.label) + "\",\"url\":\""@ + escaped(b.url) + "\"}"@
}

pub open spec fn button_members(bs: Seq<ButtonModel>) -> Seq<Option<Seq<char>>> {
    bs.map_values(|b: ButtonModel| Some(button_json(b)))
}

pub open spec fn buttons_json(b: Option<Seq<ButtonModel>>) -> Seq<char> {
    match b {
        Some(bs) => ",\"buttons\":["@ + members(button_members(bs)) + "]"@,
        None => seq![],
    }
}

/// The instance flag as a member, where it is set.
pub open spec fn instance_json(i: Option<bool>) -> Seq<char> {
    match i {
        Some(true) => ",\"instance\":true"@,
        Some(false) => ",\"instance\":false"@,
        None => seq![],
    }
}

/// The JSON object for a presence value. Members that are not set are left
/// out; text values are escaped.
pub open spec fn activity_json(a: ActivityModel) -> Seq<char> {
    "{\"type\":"@ + decimal(type_code(a.ty) as nat) + timestamps_json(a.timestamps) + text_json(
        ",\"details\":\""@,
        a.details,
    ) + text_json(",\"state\":\""@, a.state) + party_json(a.party) + secrets_json(a.secrets)
        + assets_json(a.assets) + buttons_json(a.buttons) + instance_json(a.instance) + "}"@
}

fn escaped_field(prefix: &str, value: Option<&str>) -> (r: Option<String>)
    ensures
        (match r {
            Some(s) => Some(s@),
            None => None,
        }) == quoted(prefix@, escaped_opt(crate::activity::text_of(value))),
{
    match value {
        Some(v) => {
            let e = escape_json(v);
            let mut m = String::from_str(prefix);
            m.append(e.as_str());
            m.append("\"");
            Some(m)
        },
        None => None,
    }
}

fn number_field(prefix: &str, value: Option<u128>) -> (r: Option<String>)
    ensures
        (match r {
            Some(s) => Some(s@),
            None => None,
        }) == number(prefix@, value),
{
    match value {
        Some(n) => {
            let mut m = String::from_str(prefix);
            push_decimal(&mut m, n);
            Some(m)
        },
        None => None,
    }
}

fn push_object(out: &mut String, open: &str, fields: Vec<Option<String>>)
    ensures
        final(out)@ == old(out)@ + object(open@, texts_of(fields@)),
{
    out.append(open);
    push_members(out, &fields);
    out.append("}");
    assert(final(out)@ =~= old(out)@ + object(open@, texts_of(fields@)));
}

fn push_timestamps(out: &mut String, a: &Activity)
    ensures
        final(out)@ == old(out)@ + timestamps_json(a@.timestamps),
{
    if let Some(t) = a.timestamps {
        let any = match (t.start, t.end) {
            (None, None) => false,
            _ => true,
        };
        if any {
            let mut fields: Vec<Option<String>> = Vec::new();
            fields.push(number_field("\"start\":", t.start));
            fields.push(number_field("\"end\":", t.end));
            assert(texts_of(fields@) =~= seq![number("\"start\":"@, t.start), number("\"end\":"@, t.end)]);
            push_object(out, ",\"timestamps\":{", fields);
        }
    }
}

fn push_text(out: &mut String, prefix: &str, value: Option<&str>)
    ensures
        final(out)@ == old(out)@ + text_json(prefix@, crate::activity::text_of(value)),
{
    if let Some(v) = value {
        let e = escape_json(v);
        out.append(prefix);
        out.append(e.as_str());
        out.append("\"");
        assert(final(out)@ =~= old(out)@ + text_json(prefix@, crate::activity::text_of(value)));
    }
}

fn size_field(size: Option<[u8; 2]>) -> (r: Option<String>)
    ensures
        (match r {
            Some(s) => Some(s@),
            None => None,
        }) == size_member(
            match size {
                Some(s) => Some((s[0], s[1])),
                None => None,
            },
        ),
{
    match size {
        Some(s) => {
            let mut m = String::from_str("\"size\":[");
            push_decimal(&mut m, s[0] as u128);
            m.append(",");
            push_decimal(&mut m, s[1] as u128);
            m.append("]");
            Some(m)
        },
        None => None,
    }
}

fn push_party(out: &mut String, a: &Activity)
    ensures
        final(out)@ == old(out)@ + party_json(a@.party),
{
    if let Some(p) = &a.party {
        let mut fields: Vec<Option<String>> = Vec::new();
        fields.push(escaped_field("\"id\":\"", p.id));
        fields.push(size_field(p.size));
        assert(texts_of(fields@) =~= seq![quoted("\"id\":\""@, escaped_opt(p@.id)), size_member(p@.size)]);
        push_object(out, ",\"party\":{", fields);
    }
}

fn push_secrets(out: &mut String, a: &Activity)
    ensures
        final(out)@ == old(out)@ + secrets_json(a@.secrets),
{
    if let Some(s) = &a.secrets {
        let mut fields: Vec<Option<String>> = Vec::new();
        fields.push(escaped_field("\"join\":\"", s.join));
        fields.push(escaped_field("\"spectate\":\"", s.spectate));
        fields.push(escaped_field("\"match_id\":\"", s.match_id));
        assert(texts_of(fields@) =~= seq![
            quoted("\"join\":\""@, escaped_opt(s@.join)),
            quoted("\"spectate\":\""@, escaped_opt(s@.spectate)),
            quoted("\"match_id\":\""@, escaped_opt(s@.match_id)),
        ]);
        push_object(out, ",\"secrets\":{", fields);
    }
}

fn push_assets(out: &mut String, a: &Activity)
    ensures
        final(out)@ == old(out)@ + assets_json(a@.assets),
{
    if let Some(s) = &a.assets {
        let mut fields: Vec<Option<String>> = Vec::new();
        fields.push(escaped_field("\"large_image\":\"", s.large_image));
        fields.push(escaped_field("\"large_text\":\"", s.large_text));
        fields.push(escaped_field("\"small_image\":\"", s.small_image));
        fields.push(escaped_field("\"small_text\":\"", s.small_text));
        assert(texts_of(fields@) =~= seq![
            quoted("\"large_image\":\""@, escaped_opt(s@.large_image)),
            quoted("\"large_text\":\""@, escaped_opt(s@.large_text)),
            quoted("\"small_image\":\""@, escaped_opt(s@.small_image)),
            quoted("\"small_text\":\""@, escaped_opt(s@.small_text)),
        ]);
        push_object(out, ",\"assets\":{", fields);
    }
}

fn button_text(b: &ActivityButton) -> (r: String)
    ensures
        r@ == button_json(b@),
{
    let label = escape_json(b.label);
    let mut m = String::from_str("{\"label\":\"");
    m.append(label.as_str());
    m.append("\",\"url\":\"");
    let url = escape_json(b.url);
    m.append(url.as_str());
    m.append("\"}");
    assert(m@ =~= button_json(b@));
    m
}

fn push_buttons(out: &mut String, a: &Activity)
    ensures
        final(out)@ == old(out)@ + buttons_json(a@.buttons),
{
    if let Some(bs) = a.buttons {
        let ghost model = crate::activity::buttons_model(bs@);
        let mut fields: Vec<Option<String>> = Vec::new();
        let mut i: usize = 0;
        while i < bs.len()
            invariant
                i <= bs@.len(),
                model == crate::activity::buttons_model(bs@),
                fields@.len() == i,
                texts_of(fields@) =~= button_members(model.subrange(0, i as int)),
            decreases bs@.len() - i,
        {
            let t = button_text(&bs[i]);
            assert(model[i as int] == bs@[i as int]@);
            let ghost before = fields@;
            fields.push(Some(t));
            assert(fields@ == before.push(Some(t)));
            assert(texts_of(fields@)[i as int] == Some(button_json(model[i as int])));
            assert forall|j: int| 0 <= j < i implies texts_of(fields@)[j] == texts_of(before)[j] by {
                assert(fields@[j] == before[j]);
            }
            assert forall|j: int| 0 <= j <= i implies #[trigger] texts_of(fields@)[j]
                == button_members(model.subrange(0, i + 1))[j] by {
                if j < i {
                    assert(texts_of(before)[j] == button_members(model.subrange(0, i as int))[j]);
                }
            }
            i = i + 1;
            assert(texts_of(fields@) =~= button_members(model.subrange(0, i as int)));
        }
        assert(model.subrange(0, i as int) =~= model);
        out.append(",\"buttons\":[");
        push_members(out, &fields);
        out.append("]");
        assert(final(out)@ =~= old(out)@ + buttons_json(a@.buttons));
    }
}

impl<'a> Activity<'a> {
    /// Appends this presence value as a JSON object. Writing into a `String`
    /// does not fail, so the result is always `Ok`.
    pub fn push_json(&self, json_str: &mut String) -> (r: Result<(), std::fmt::Error>)
        ensures
            r is Ok,
            final(json_str)@ == old(json_str)@ + activity_json(self@),
    {
        json_str.append("{\"type\":");
        push_decimal(json_str, self.ty.to_u8() as u128);
        push_timestamps(json_str, self);
        push_text(json_str, ",\"details\":\"", self.details);
        push_text(json_str, ",\"state\":\"", self.state);
        push_party(json_str, self);
        push_secrets(json_str, self);
        push_assets(json_str, self);
        push_buttons(json_str, self);
        match self.instance {
            Some(true) => json_str.append(",\"instance\":true"),
            Some(false) => json_str.append(",\"instance\":false"),
            None => {},
        }
        json_str.append("}");
        assert(final(json_str)@ =~= old(json_str)@ + activity_json(self@));
        Ok(())
    }
}

} // verus!
