//! Encoding of the outbound records as JSON text.
//!
//! The discovery configuration and the status record are published as
//! JSON. Both records have a fixed shape, so the encoding is written down
//! here as a spec function over the records' fields, and the executable
//! encoders are proved to produce exactly that text. A spec-level parser
//! of the same shape, together with [`lemma_configuration_round_trip`],
//! shows the encoding is lossless.
use vstd::prelude::*;
use vstd::string::StrSliceExecFns;
use vstd::string::StringExecFns;

use crate::thermostat::ConfigurationFields;
use crate::thermostat::Device;
use crate::thermostat::DeviceFields;
use crate::thermostat::ThermostatCommand;
use crate::thermostat::ThermostatConfiguration;
use crate::thermostat::ThermostatStateMsg;
use crate::thermostat::status_message;

verus! {

/// The JSON escaping of one character inside a quoted string: quote and
/// backslash take a backslash prefix, every other character stands as is.
pub open spec fn escape_char(c: char) -> Seq<char> {
    if c == '"' {
        "\\\""@
    } else if c == '\\' {
        "\\\\"@
    } else {
        seq![c]
    }
}

/// The JSON escaping of a whole string body.
pub open spec fn escape_seq(s: Seq<char>) -> Seq<char>
    decreases s.len(),
{
    if s.len() == 0 {
        Seq::empty()
    } else {
        escape_char(s[0]) + escape_seq(s.drop_first())
    }
}

/// A JSON string: the escaped body between double quotes.
pub open spec fn quoted(s: Seq<char>) -> Seq<char> {
    "\""@ + escape_seq(s) + "\""@
}

/// A JSON array of strings, without its brackets: the quoted items,
/// separated by commas.
pub open spec fn array_items_json(items: Seq<Seq<char>>) -> Seq<char>
    decreases items.len(),
{
    if items.len() == 0 {
        Seq::empty()
    } else if items.len() == 1 {
        quoted(items[0])
    } else {
        quoted(items[0]) + ","@ + array_items_json(items.drop_first())
    }
}

/// A JSON array of strings.
pub open spec fn array_json(items: Seq<Seq<char>>) -> Seq<char> {
    "["@ + array_items_json(items) + "]"@
}

/// The device descriptor as JSON text.
pub open spec fn device_json(d: DeviceFields) -> Seq<char> {
    "{\"identifiers\":"@ + array_json(d.identifiers) + ",\"name\":"@ + quoted(d.name)
        + ",\"sw_version\":"@ + quoted(d.sw_version) + ",\"model\":"@ + quoted(d.model)
        + ",\"manufacturer\":"@ + quoted(d.manufacturer) + "}"@
}

/// The discovery-configuration record as JSON text.
pub open spec fn configuration_json(c: ConfigurationFields) -> Seq<char> {
    "{\"payload_off\":"@ + quoted(c.payload_off) + ",\"payload_on\":"@ + quoted(c.payload_on)
        + ",\"value_template\":"@ + quoted(c.value_template) + ",\"command_topic\":"@ + quoted(
        c.command_topic,
    ) + ",\"state_topic\":"@ + quoted(c.state_topic) + ",\"name\":"@ + quoted(c.name)
        + ",\"unique_id\":"@ + quoted(c.unique_id) + ",\"device\":"@ + device_json(c.device)
        + "}"@
}

/// The status record as JSON text: one field `state`.
pub open spec fn state_msg_json(state: Seq<char>) -> Seq<char> {
    "{\"state\":"@ + quoted(state) + "}"@
}

/// The status record a command leads to, as JSON text: its `state` field
/// holds the command's payload verbatim.
pub open spec fn spec_status_json(cmd: ThermostatCommand) -> Seq<char> {
    state_msg_json(cmd.spec_payload())
}

/// Escaping distributes over concatenation.
proof fn lemma_escape_seq_concat(a: Seq<char>, b: Seq<char>)
    ensures
        escape_seq(a + b) == escape_seq(a) + escape_seq(b),
    decreases a.len(),
{
    if a.len() == 0 {
        assert(a + b =~= b);
        assert(escape_seq(a) + escape_seq(b) =~= escape_seq(b));
    } else {
        assert((a + b)[0] == a[0]);
        assert((a + b).drop_first() =~= a.drop_first() + b);
        lemma_escape_seq_concat(a.drop_first(), b);
        assert(escape_seq(a + b) =~= escape_seq(a) + escape_seq(b));
    }
}

/// Escaping a one-character string is escaping that character.
proof fn lemma_escape_seq_single(c: char)
    ensures
        escape_seq(seq![c]) == escape_char(c),
{
    assert(seq![c].drop_first() =~= Seq::<char>::empty());
    assert(escape_seq(Seq::<char>::empty()) == Seq::<char>::empty());
    assert(escape_seq(seq![c]) == escape_char(c) + escape_seq(seq![c].drop_first()));
    assert(escape_char(c) + Seq::<char>::empty() =~= escape_char(c));
}

/// Extending the escaped prefix by one source character.
proof fn lemma_escape_seq_snoc(s: Seq<char>, i: int)
    requires
        0 <= i < s.len(),
    ensures
        escape_seq(s.take(i + 1)) == escape_seq(s.take(i)) + escape_char(s[i]),
{
    assert(s.take(i + 1) =~= s.take(i) + seq![s[i]]);
    lemma_escape_seq_concat(s.take(i), seq![s[i]]);
    lemma_escape_seq_single(s[i]);
}

/// Relies on `String::push`: appends exactly the one given character.
#[verifier::external_body]
fn push_char(out: &mut String, c: char)
    ensures
        final(out)@ == old(out)@ + seq![c],
{
    out.push(c);
}

/// Appends a field as a JSON string, quotes and escaping included.
fn append_quoted(out: &mut String, s: &str)
    ensures
        final(out)@ == old(out)@ + quoted(s@),
{
    out.append("\"");
    let n = s.unicode_len();
    let mut i: usize = 0;
    while i < n
        invariant
            n == s@.len(),
            i <= n,
            out@ == old(out)@ + "\""@ + escape_seq(s@.take(i as int)),
        decreases n - i,
    {
        let c = s.get_char(i);
        proof {
            lemma_escape_seq_snoc(s@, i as int);
        }
        if c == '"' {
            out.append("\\\"");
        } else if c == '\\' {
            out.append("\\\\");
        } else {
            push_char(out, c);
        }
        i = i + 1;
        proof {
            assert(out@ =~= old(out)@ + "\""@ + escape_seq(s@.take(i as int)));
        }
    }
    proof {
        assert(s@.take(n as int) =~= s@);
    }
    out.append("\"");
    proof {
        assert(out@ =~= old(out)@ + quoted(s@));
    }
}

/// Splitting a non-empty item list anywhere inserts one comma.
proof fn lemma_array_items_concat(a: Seq<Seq<char>>, b: Seq<Seq<char>>)
    requires
        a.len() >= 1,
        b.len() >= 1,
    ensures
        array_items_json(a + b) == array_items_json(a) + ","@ + array_items_json(b),
    decreases a.len(),
{
    if a.len() == 1 {
        assert((a + b)[0] == a[0]);
        assert((a + b).drop_first() =~= b);
        assert(array_items_json(a + b) =~= array_items_json(a) + ","@ + array_items_json(b));
    } else {
        assert((a + b)[0] == a[0]);
        assert((a + b).drop_first() =~= a.drop_first() + b);
        lemma_array_items_concat(a.drop_first(), b);
        assert(array_items_json(a + b) =~= array_items_json(a) + ","@ + array_items_json(b));
    }
}

/// Extending the encoded item list by one item.
proof fn lemma_array_items_snoc(items: Seq<Seq<char>>, i: int)
    requires
        1 <= i < items.len(),
    ensures
        array_items_json(items.take(i + 1)) == array_items_json(items.take(i)) + ","@ + quoted(
            items[i],
        ),
{
    assert(items.take(i + 1) =~= items.take(i) + seq![items[i]]);
    lemma_array_items_concat(items.take(i), seq![items[i]]);
    assert(array_items_json(seq![items[i]]) == quoted(items[i]));
}

/// Appends a list of fields as a JSON array of strings.
fn append_array(out: &mut String, items: &Vec<String>)
    ensures
        final(out)@ == old(out)@ + array_json(items.deep_view()),
{
    let ghost dv = items.deep_view();
    out.append("[");
    let mut i: usize = 0;
    while i < items.len()
        invariant
            dv == items.deep_view(),
            dv.len() == items@.len(),
            i <= items@.len(),
            out@ == old(out)@ + "["@ + array_items_json(dv.take(i as int)),
        decreases items@.len() - i,
    {
        if i > 0 {
            out.append(",");
            proof {
                lemma_array_items_snoc(dv, i as int);
            }
        }
        append_quoted(out, items[i].as_str());
        proof {
            assert(dv[i as int] == items@[i as int]@);
            if i == 0 {
                assert(dv.take(1).len() == 1);
                assert(dv.take(1)[0] == dv[0]);
                assert(array_items_json(dv.take(1)) == quoted(dv[0]));
            }
            assert(out@ =~= old(out)@ + "["@ + array_items_json(dv.take(i + 1 as int)));
        }
        i = i + 1;
    }
    proof {
        assert(dv.take(items@.len() as int) =~= dv);
    }
    out.append("]");
    proof {
        assert(out@ =~= old(out)@ + array_json(dv));
    }
}

/// Appends the device descriptor as a JSON object.
fn append_device(out: &mut String, device: &Device)
    ensures
        final(out)@ == old(out)@ + device_json(device@),
{
    out.append("{\"identifiers\":");
    append_array(out, &device.identifiers);
    out.append(",\"name\":");
    append_quoted(out, device.name.as_str());
    out.append(",\"sw_version\":");
    append_quoted(out, device.sw_version.as_str());
    out.append(",\"model\":");
    append_quoted(out, device.model.as_str());
    out.append(",\"manufacturer\":");
    append_quoted(out, device.manufacturer.as_str());
    out.append("}");
    proof {
        assert(out@ =~= old(out)@ + device_json(device@));
    }
}

/// The discovery-configuration record, serialized for the discovery
/// publish: exactly the text [`configuration_json`] states.
pub fn configuration_payload(configuration: &ThermostatConfiguration) -> (r: String)
    ensures
        r@ == configuration_json(configuration@),
{
    let mut out = String::new();
    out.append("{\"payload_off\":");
    append_quoted(&mut out, configuration.payload_off.as_str());
    out.append(",\"payload_on\":");
    append_quoted(&mut out, configuration.payload_on.as_str());
    out.append(",\"value_template\":");
    append_quoted(&mut out, configuration.value_template.as_str());
    out.append(",\"command_topic\":");
    append_quoted(&mut out, configuration.command_topic.as_str());
    out.append(",\"state_topic\":");
    append_quoted(&mut out, configuration.state_topic.as_str());
    out.append(",\"name\":");
    append_quoted(&mut out, configuration.name.as_str());
    out.append(",\"unique_id\":");
    append_quoted(&mut out, configuration.unique_id.as_str());
    out.append(",\"device\":");
    append_device(&mut out, &configuration.device);
    out.append("}");
    proof {
        assert(out@ =~= configuration_json(configuration@));
    }
    out
}

/// The status record, serialized: exactly the text [`state_msg_json`]
/// states.
pub fn state_message_payload(msg: &ThermostatStateMsg) -> (r: String)
    ensures
        r@ == state_msg_json(msg.state@),
{
    let mut out = String::new();
    out.append("{\"state\":");
    append_quoted(&mut out, msg.state.as_str());
    out.append("}");
    proof {
        assert(out@ =~= state_msg_json(msg.state@));
    }
    out
}

/// The status publish a command leads to: the serialized status record
/// whose `state` field carries the command's payload.
pub fn status_payload(cmd: ThermostatCommand) -> (r: String)
    ensures
        r@ == spec_status_json(cmd),
{
    let msg = status_message(cmd);
    state_message_payload(&msg)
}

/// The rest of the text after an exact prefix, or `None` when the text
/// does not start with it.
pub open spec fn strip_prefix(s: Seq<char>, p: Seq<char>) -> Option<Seq<char>> {
    if p.is_prefix_of(s) {
        Some(s.skip(p.len() as int))
    } else {
        None
    }
}

/// Parses the body of a JSON string after its opening quote: unescapes up
/// to the closing quote and returns the decoded text and the rest.
pub open spec fn parse_qchars(s: Seq<char>) -> Option<(Seq<char>, Seq<char>)>
    decreases s.len(),
{
    if s.len() == 0 {
        None
    } else if s[0] == '"' {
        Some((Seq::empty(), s.drop_first()))
    } else if s[0] == '\\' {
        if s.len() >= 2 && (s[1] == '"' || s[1] == '\\') {
            match parse_qchars(s.skip(2)) {
                Some(p) => Some((seq![s[1]] + p.0, p.1)),
                None => None,
            }
        } else {
            None
        }
    } else {
        match parse_qchars(s.drop_first()) {
            Some(p) => Some((seq![s[0]] + p.0, p.1)),
            None => None,
        }
    }
}

/// Parses a JSON string, opening quote included.
pub open spec fn parse_quoted(s: Seq<char>) -> Option<(Seq<char>, Seq<char>)> {
    if s.len() >= 1 && s[0] == '"' {
        parse_qchars(s.drop_first())
    } else {
        None
    }
}

/// Parses an exact key text followed by a JSON string.
pub open spec fn parse_field(s: Seq<char>, key: Seq<char>) -> Option<(Seq<char>, Seq<char>)> {
    match strip_prefix(s, key) {
        Some(s1) => parse_quoted(s1),
        None => None,
    }
}

/// Parses the items of a non-empty JSON array of strings, up to and
/// including the closing bracket.
pub open spec fn parse_array_items(s: Seq<char>) -> Option<(Seq<Seq<char>>, Seq<char>)>
    decreases s.len(),
{
    match parse_quoted(s) {
        Some(p) => {
            let item = p.0;
            let rest = p.1;
            if rest.len() < s.len() {
                if rest.len() >= 1 && rest[0] == ',' {
                    match parse_array_items(rest.drop_first()) {
                        Some(q) => Some((seq![item] + q.0, q.1)),
                        None => None,
                    }
                } else if rest.len() >= 1 && rest[0] == ']' {
                    Some((seq![item], rest.drop_first()))
                } else {
                    None
                }
            } else {
                None
            }
        },
        None => None,
    }
}

/// Parses a JSON array of strings.
pub open spec fn parse_array(s: Seq<char>) -> Option<(Seq<Seq<char>>, Seq<char>)> {
    if s.len() >= 2 && s[0] == '[' && s[1] == ']' {
        Some((Seq::empty(), s.skip(2)))
    } else if s.len() >= 1 && s[0] == '[' {
        parse_array_items(s.drop_first())
    } else {
        None
    }
}

/// Parses a device descriptor of the exact shape [`device_json`] emits.
pub open spec fn parse_device_json(s: Seq<char>) -> Option<(DeviceFields, Seq<char>)> {
    match strip_prefix(s, "{\"identifiers\":"@) {
        Some(s1) => match parse_array(s1) {
            Some(p_ids) => match parse_field(p_ids.1, ",\"name\":"@) {
                Some(p_name) => match parse_field(p_name.1, ",\"sw_version\":"@) {
                    Some(p_sw) => match parse_field(p_sw.1, ",\"model\":"@) {
                        Some(p_model) => match parse_field(p_model.1, ",\"manufacturer\":"@) {
                            Some(p_manu) => match strip_prefix(p_manu.1, "}"@) {
                                Some(s7) => Some(
                                    (
                                        DeviceFields {
                                            identifiers: p_ids.0,
                                            name: p_name.0,
                                            sw_version: p_sw.0,
                                            model: p_model.0,
                                            manufacturer: p_manu.0,
                                        },
                                        s7,
                                    ),
                                ),
                                None => None,
                            },
                            None => None,
                        },
                        None => None,
                    },
                    None => None,
                },
                None => None,
            },
            None => None,
        },
        None => None,
    }
}

/// Parses the three payload fields that open the record.
pub open spec fn parse_payload_fields(s: Seq<char>) -> Option<
    ((Seq<char>, Seq<char>, Seq<char>), Seq<char>),
> {
    match parse_field(s, "{\"payload_off\":"@) {
        Some(p1) => match parse_field(p1.1, ",\"payload_on\":"@) {
            Some(p2) => match parse_field(p2.1, ",\"value_template\":"@) {
                Some(p3) => Some(((p1.0, p2.0, p3.0), p3.1)),
                None => None,
            },
            None => None,
        },
        None => None,
    }
}

/// Parses the two topic fields of the record.
pub open spec fn parse_topic_fields(s: Seq<char>) -> Option<((Seq<char>, Seq<char>), Seq<char>)> {
    match parse_field(s, ",\"command_topic\":"@) {
        Some(p1) => match parse_field(p1.1, ",\"state_topic\":"@) {
            Some(p2) => Some(((p1.0, p2.0), p2.1)),
            None => None,
        },
        None => None,
    }
}

/// Parses the two identity fields of the record.
pub open spec fn parse_identity_fields(s: Seq<char>) -> Option<
    ((Seq<char>, Seq<char>), Seq<char>),
> {
    match parse_field(s, ",\"name\":"@) {
        Some(p1) => match parse_field(p1.1, ",\"unique_id\":"@) {
            Some(p2) => Some(((p1.0, p2.0), p2.1)),
            None => None,
        },
        None => None,
    }
}

/// Parses the nested device descriptor and the record's closing brace.
pub open spec fn parse_device_end(s: Seq<char>) -> Option<(DeviceFields, Seq<char>)> {
    match strip_prefix(s, ",\"device\":"@) {
        Some(sd) => match parse_device_json(sd) {
            Some(p) => match strip_prefix(p.1, "}"@) {
                Some(sr) => Some((p.0, sr)),
                None => None,
            },
            None => None,
        },
        None => None,
    }
}

/// Parses a discovery-configuration record of the exact shape
/// [`configuration_json`] emits.
pub open spec fn parse_configuration_record(s: Seq<char>) -> Option<
    (ConfigurationFields, Seq<char>),
> {
    match parse_payload_fields(s) {
        Some(pp) => match parse_topic_fields(pp.1) {
            Some(pt) => match parse_identity_fields(pt.1) {
                Some(pi) => match parse_device_end(pi.1) {
                    Some(pd) => Some(
                        (
                            ConfigurationFields {
                                payload_off: pp.0.0,
                                payload_on: pp.0.1,
                                value_template: pp.0.2,
                                command_topic: pt.0.0,
                                state_topic: pt.0.1,
                                name: pi.0.0,
                                unique_id: pi.0.1,
                                device: pd.0,
                            },
                            pd.1,
                        ),
                    ),
                    None => None,
                },
                None => None,
            },
            None => None,
        },
        None => None,
    }
}

/// Parses a complete discovery-configuration text, nothing following.
pub open spec fn parse_configuration(s: Seq<char>) -> Option<ConfigurationFields> {
    match parse_configuration_record(s) {
        Some(p) => if p.1.len() == 0 {
            Some(p.0)
        } else {
            None
        },
        None => None,
    }
}

/// Stripping a prefix off a text that starts with it leaves the rest.
proof fn lemma_strip_prefix_round(p: Seq<char>, rest: Seq<char>)
    ensures
        strip_prefix(p + rest, p) == Some(rest),
{
    assert(p =~= (p + rest).take(p.len() as int));
    assert((p + rest).skip(p.len() as int) =~= rest);
}

/// Unescaping inverts escaping: the escaped body followed by the closing
/// quote and anything after it parses back to the original text.
proof fn lemma_parse_qchars_round(f: Seq<char>, rest: Seq<char>)
    ensures
        parse_qchars(escape_seq(f) + "\""@ + rest) == Some((f, rest)),
    decreases f.len(),
{
    reveal_strlit("\"");
    reveal_strlit("\\\"");
    reveal_strlit("\\\\");
    let s = escape_seq(f) + "\""@ + rest;
    if f.len() == 0 {
        assert(s =~= "\""@ + rest);
        assert(s[0] == '"');
        assert(s.drop_first() =~= rest);
        assert(f =~= Seq::<char>::empty());
    } else {
        let tail = escape_seq(f.drop_first()) + "\""@ + rest;
        lemma_parse_qchars_round(f.drop_first(), rest);
        if f[0] == '"' {
            assert(escape_char(f[0]) == "\\\""@);
            assert(s =~= "\\\""@ + tail);
            assert(s[0] == '\\' && s[1] == '"' && s.len() >= 2);
            assert(s.skip(2) =~= tail);
            assert(seq![s[1]] + f.drop_first() =~= f);
        } else if f[0] == '\\' {
            assert(escape_char(f[0]) == "\\\\"@);
            assert(s =~= "\\\\"@ + tail);
            assert(s[0] == '\\' && s[1] == '\\' && s.len() >= 2);
            assert(s.skip(2) =~= tail);
            assert(seq![s[1]] + f.drop_first() =~= f);
        } else {
            assert(escape_char(f[0]) == seq![f[0]]);
            assert(s =~= seq![f[0]] + tail);
            assert(s[0] == f[0]);
            assert(s.drop_first() =~= tail);
            assert(seq![s[0]] + f.drop_first() =~= f);
        }
    }
}

/// A quoted string followed by anything parses back to the original text.
proof fn lemma_parse_quoted_round(f: Seq<char>, rest: Seq<char>)
    ensures
        parse_quoted(quoted(f) + rest) == Some((f, rest)),
{
    reveal_strlit("\"");
    let s = quoted(f) + rest;
    assert(s[0] == '"' && s.len() >= 1);
    assert(s.drop_first() =~= escape_seq(f) + "\""@ + rest);
    lemma_parse_qchars_round(f, rest);
}

/// A quoted string is at least the two quotes long and starts with one.
proof fn lemma_quoted_shape(f: Seq<char>)
    ensures
        quoted(f).len() >= 2,
        quoted(f)[0] == '"',
{
    reveal_strlit("\"");
}

/// A key and its quoted value followed by anything parse back to the
/// original text.
proof fn lemma_parse_field_round(key: Seq<char>, f: Seq<char>, rest: Seq<char>)
    ensures
        parse_field(key + quoted(f) + rest, key) == Some((f, rest)),
{
    assert(key + quoted(f) + rest =~= key + (quoted(f) + rest));
    lemma_strip_prefix_round(key, quoted(f) + rest);
    lemma_parse_quoted_round(f, rest);
}

/// The encoded items of a non-empty list, the closing bracket and
/// anything after it parse back to the original list.
proof fn lemma_parse_array_items_round(items: Seq<Seq<char>>, rest: Seq<char>)
    requires
        items.len() >= 1,
    ensures
        parse_array_items(array_items_json(items) + "]"@ + rest) == Some((items, rest)),
    decreases items.len(),
{
    reveal_strlit("]");
    reveal_strlit(",");
    let s = array_items_json(items) + "]"@ + rest;
    lemma_quoted_shape(items[0]);
    if items.len() == 1 {
        let r1 = "]"@ + rest;
        assert(s =~= quoted(items[0]) + r1);
        lemma_parse_quoted_round(items[0], r1);
        assert(r1.len() < s.len());
        assert(r1[0] == ']');
        assert(r1.drop_first() =~= rest);
        assert(seq![items[0]] =~= items);
    } else {
        let tail = array_items_json(items.drop_first());
        let r1 = ","@ + tail + "]"@ + rest;
        assert(s =~= quoted(items[0]) + r1);
        lemma_parse_quoted_round(items[0], r1);
        assert(r1.len() < s.len());
        assert(r1[0] == ',');
        assert(r1.drop_first() =~= tail + "]"@ + rest);
        lemma_parse_array_items_round(items.drop_first(), rest);
        assert(seq![items[0]] + items.drop_first() =~= items);
    }
}

/// An encoded array followed by anything parses back to the original
/// list.
proof fn lemma_parse_array_round(items: Seq<Seq<char>>, rest: Seq<char>)
    ensures
        parse_array(array_json(items) + rest) == Some((items, rest)),
{
    reveal_strlit("[");
    reveal_strlit("]");
    let s = array_json(items) + rest;
    if items.len() == 0 {
        assert(array_items_json(items) == Seq::<char>::empty());
        assert(s =~= seq!['[', ']'] + rest);
        assert(s.len() >= 2 && s[0] == '[' && s[1] == ']');
        assert(s.skip(2) =~= rest);
        assert(items =~= Seq::<Seq<char>>::empty());
    } else {
        lemma_quoted_shape(items[0]);
        assert(array_items_json(items)[0] == quoted(items[0])[0]);
        assert(s[0] == '[');
        assert(s[1] == '"');
        assert(!(s.len() >= 2 && s[0] == '[' && s[1] == ']'));
        assert(s.drop_first() =~= array_items_json(items) + "]"@ + rest);
        lemma_parse_array_items_round(items, rest);
    }
}

/// An encoded device descriptor followed by anything parses back to the
/// original fields.
proof fn lemma_parse_device_round(d: DeviceFields, rest: Seq<char>)
    ensures
        parse_device_json(device_json(d) + rest) == Some((d, rest)),
{
    let s = device_json(d) + rest;
    let t5 = "}"@ + rest;
    let t4 = ",\"manufacturer\":"@ + quoted(d.manufacturer) + t5;
    let t3 = ",\"model\":"@ + quoted(d.model) + t4;
    let t2 = ",\"sw_version\":"@ + quoted(d.sw_version) + t3;
    let t1 = ",\"name\":"@ + quoted(d.name) + t2;
    let t0 = array_json(d.identifiers) + t1;
    assert(s =~= "{\"identifiers\":"@ + t0);
    lemma_strip_prefix_round("{\"identifiers\":"@, t0);
    assert(t0 =~= array_json(d.identifiers) + t1);
    lemma_parse_array_round(d.identifiers, t1);
    assert(t1 =~= ",\"name\":"@ + quoted(d.name) + t2);
    lemma_parse_field_round(",\"name\":"@, d.name, t2);
    lemma_parse_field_round(",\"sw_version\":"@, d.sw_version, t3);
    lemma_parse_field_round(",\"model\":"@, d.model, t4);
    lemma_parse_field_round(",\"manufacturer\":"@, d.manufacturer, t5);
    lemma_strip_prefix_round("}"@, rest);
    assert(parse_device_json(s) matches Some(p) && p.0 =~= d && p.1 == rest);
}

/// The three opening payload fields parse back to the original texts.
proof fn lemma_parse_payload_fields_round(f1: Seq<char>, f2: Seq<char>, f3: Seq<char>, rest: Seq<char>)
    ensures
        parse_payload_fields(
            "{\"payload_off\":"@ + quoted(f1) + ",\"payload_on\":"@ + quoted(f2)
                + ",\"value_template\":"@ + quoted(f3) + rest,
        ) == Some(((f1, f2, f3), rest)),
{
    let t2 = ",\"value_template\":"@ + quoted(f3) + rest;
    let t1 = ",\"payload_on\":"@ + quoted(f2) + t2;
    let s = "{\"payload_off\":"@ + quoted(f1) + ",\"payload_on\":"@ + quoted(f2)
        + ",\"value_template\":"@ + quoted(f3) + rest;
    assert(s =~= "{\"payload_off\":"@ + quoted(f1) + t1);
    lemma_parse_field_round("{\"payload_off\":"@, f1, t1);
    assert(t1 =~= ",\"payload_on\":"@ + quoted(f2) + t2);
    lemma_parse_field_round(",\"payload_on\":"@, f2, t2);
    lemma_parse_field_round(",\"value_template\":"@, f3, rest);
}

/// The two topic fields parse back to the original texts.
proof fn lemma_parse_topic_fields_round(f1: Seq<char>, f2: Seq<char>, rest: Seq<char>)
    ensures
        parse_topic_fields(
            ",\"command_topic\":"@ + quoted(f1) + ",\"state_topic\":"@ + quoted(f2) + rest,
        ) == Some(((f1, f2), rest)),
{
    let t1 = ",\"state_topic\":"@ + quoted(f2) + rest;
    let s = ",\"command_topic\":"@ + quoted(f1) + ",\"state_topic\":"@ + quoted(f2) + rest;
    assert(s =~= ",\"command_topic\":"@ + quoted(f1) + t1);
    lemma_parse_field_round(",\"command_topic\":"@, f1, t1);
    lemma_parse_field_round(",\"state_topic\":"@, f2, rest);
}

/// The two identity fields parse back to the original texts.
proof fn lemma_parse_identity_fields_round(f1: Seq<char>, f2: Seq<char>, rest: Seq<char>)
    ensures
        parse_identity_fields(
            ",\"name\":"@ + quoted(f1) + ",\"unique_id\":"@ + quoted(f2) + rest,
        ) == Some(((f1, f2), rest)),
{
    let t1 = ",\"unique_id\":"@ + quoted(f2) + rest;
    let s = ",\"name\":"@ + quoted(f1) + ",\"unique_id\":"@ + quoted(f2) + rest;
    assert(s =~= ",\"name\":"@ + quoted(f1) + t1);
    lemma_parse_field_round(",\"name\":"@, f1, t1);
    lemma_parse_field_round(",\"unique_id\":"@, f2, rest);
}

/// The encoded device descriptor and closing brace parse back to the
/// original fields.
proof fn lemma_parse_device_end_round(d: DeviceFields, rest: Seq<char>)
    ensures
        parse_device_end(",\"device\":"@ + device_json(d) + "}"@ + rest) == Some((d, rest)),
{
    let t = "}"@ + rest;
    let s = ",\"device\":"@ + device_json(d) + "}"@ + rest;
    assert(s =~= ",\"device\":"@ + (device_json(d) + t));
    lemma_strip_prefix_round(",\"device\":"@, device_json(d) + t);
    lemma_parse_device_round(d, t);
    lemma_strip_prefix_round("}"@, rest);
}

/// An encoded configuration record followed by anything parses back to
/// the original fields.
#[verifier::rlimit(100)]
proof fn lemma_parse_configuration_record_round(c: ConfigurationFields, rest: Seq<char>)
    ensures
        parse_configuration_record(configuration_json(c) + rest) == Some((c, rest)),
{
    let s = configuration_json(c) + rest;
    let t_dev = ",\"device\":"@ + device_json(c.device) + "}"@ + rest;
    let t_id = ",\"name\":"@ + quoted(c.name) + ",\"unique_id\":"@ + quoted(c.unique_id)
        + t_dev;
    let t_top = ",\"command_topic\":"@ + quoted(c.command_topic) + ",\"state_topic\":"@
        + quoted(c.state_topic) + t_id;
    assert(s =~= "{\"payload_off\":"@ + quoted(c.payload_off) + ",\"payload_on\":"@ + quoted(
        c.payload_on,
    ) + ",\"value_template\":"@ + quoted(c.value_template) + t_top);
    lemma_parse_payload_fields_round(c.payload_off, c.payload_on, c.value_template, t_top);
    lemma_parse_topic_fields_round(c.command_topic, c.state_topic, t_id);
    lemma_parse_identity_fields_round(c.name, c.unique_id, t_dev);
    lemma_parse_device_end_round(c.device, rest);
    assert(parse_configuration_record(s) matches Some(p) && p.0 =~= c && p.1 == rest);
}

/// Law: the discovery-configuration record round-trips. Serializing any
/// record and parsing the text back reproduces every field, the nested
/// device descriptor and its identifier list included: the encoding is
/// lossless.
pub proof fn lemma_configuration_round_trip(c: ConfigurationFields)
    ensures
        parse_configuration(configuration_json(c)) == Some(c),
{
    assert(configuration_json(c) + Seq::<char>::empty() =~= configuration_json(c));
    lemma_parse_configuration_record_round(c, Seq::empty());
}

} // verus!
