//! Protocol version 3: its version numbers and the encoding of commands.
//!
//! A command without a parameter is written `?NAME;`; one with a parameter
//! object is written `?NAME={json};`, where the object is compact JSON that
//! lists only the fields that are given.
use vstd::prelude::*;
use vstd::string::*;

use crate::client::GpsdJsonProtocol;
use crate::protocol::{GpsdJsonRequest, GpsdJsonResponse};
use crate::text::{
    int_decimal, json_string, json_string_of, lemma_int_decimal_injective, lemma_int_decimal_plain,
    push_i32_decimal,
};
use types::Watch;

pub mod request;
pub mod response;
pub mod types;

verus! {

/// The major protocol version this client speaks.
pub const API_VERSION_MAJOR: i32 = 3;

/// The least minor protocol version this client needs.
pub const API_VERSION_MINOR: i32 = 15;

/// Protocol version 3.
#[derive(Debug)]
pub struct V3;

impl GpsdJsonProtocol for V3 {
    open spec fn spec_major() -> i32 {
        API_VERSION_MAJOR
    }

    open spec fn spec_minor() -> i32 {
        API_VERSION_MINOR
    }

    fn api_version_major() -> (r: i32) {
        API_VERSION_MAJOR
    }

    fn api_version_minor() -> (r: i32) {
        API_VERSION_MINOR
    }
}

/// Replies of protocol version 3.
pub type ResponseMessage = response::Message;

impl GpsdJsonResponse for ResponseMessage {
}

/// Commands of protocol version 3.
pub type RequestMessage = request::Message;

/// The elements of a list joined by commas.
pub open spec fn join_commas(items: Seq<Seq<char>>) -> Seq<char>
    decreases items.len(),
{
    if items.len() == 0 {
        Seq::empty()
    } else if items.len() == 1 {
        items[0]
    } else {
        join_commas(items.drop_last()) + ","@ + items.last()
    }
}

/// True when every item is non-empty and holds no comma.
pub open spec fn plain_items(items: Seq<Seq<char>>) -> bool {
    forall|i: int|
        0 <= i < items.len() ==> items[i].len() > 0 && (forall|j: int|
            0 <= j < items[i].len() ==> items[i][j] != ',')
}

proof fn lemma_join_shape(items: Seq<Seq<char>>)
    requires
        plain_items(items),
    ensures
        items.len() == 0 <==> join_commas(items).len() == 0,
        items.len() == 1 ==> forall|j: int|
            0 <= j < join_commas(items).len() ==> join_commas(items)[j] != ',',
        items.len() > 1 ==> ({
            let head = join_commas(items.drop_last());
            &&& join_commas(items) == head + seq![','] + items.last()
            &&& join_commas(items)[head.len() as int] == ','
        }),
{
    reveal_strlit(",");
    if items.len() > 1 {
        assert(","@ == seq![',']);
    }
}

/// Joining non-empty items that hold no comma loses nothing: the joined
/// text gives the items back.
proof fn lemma_join_injective(a: Seq<Seq<char>>, b: Seq<Seq<char>>)
    requires
        plain_items(a),
        plain_items(b),
        join_commas(a) == join_commas(b),
    ensures
        a == b,
    decreases a.len() + b.len(),
{
    lemma_join_shape(a);
    lemma_join_shape(b);
    let t = join_commas(a);
    if a.len() == 0 || b.len() == 0 {
        assert(a =~= b);
    } else if a.len() == 1 && b.len() == 1 {
        assert(a =~= b);
    } else if a.len() == 1 {
        let hb = join_commas(b.drop_last());
        assert(t[hb.len() as int] == ',');
    } else if b.len() == 1 {
        let ha = join_commas(a.drop_last());
        assert(t[ha.len() as int] == ',');
    } else {
        let ha = join_commas(a.drop_last());
        let hb = join_commas(b.drop_last());
        let x = a.last();
        let y = b.last();
        assert(t == ha + seq![','] + x);
        assert(t == hb + seq![','] + y);
        if x.len() < y.len() {
            let p = ha.len() as int;
            assert(t[p] == ',');
            assert(t[p] == y[p - hb.len() - 1]);
        } else if y.len() < x.len() {
            let p = hb.len() as int;
            assert(t[p] == ',');
            assert(t[p] == x[p - ha.len() - 1]);
        }
        assert(ha.len() == hb.len());
        assert(x =~= t.skip(ha.len() as int + 1));
        assert(y =~= t.skip(hb.len() as int + 1));
        assert(ha =~= t.take(ha.len() as int));
        assert(hb =~= t.take(hb.len() as int));
        assert(plain_items(a.drop_last()));
        assert(plain_items(b.drop_last()));
        lemma_join_injective(a.drop_last(), b.drop_last());
        assert(a =~= a.drop_last().push(x));
        assert(b =~= b.drop_last().push(y));
    }
}

/// The JSON text of a boolean.
pub open spec fn bool_text(b: bool) -> Seq<char> {
    if b {
        "true"@
    } else {
        "false"@
    }
}

/// The member for `key` (quoted, with its colon) when a boolean is given.
pub open spec fn bool_member(key: Seq<char>, v: Option<bool>) -> Seq<Seq<char>> {
    match v {
        Some(b) => seq![key + bool_text(b)],
        None => Seq::empty(),
    }
}

/// The member for `key` when an integer is given.
pub open spec fn int_member(key: Seq<char>, v: Option<i32>) -> Seq<Seq<char>> {
    match v {
        Some(n) => seq![key + int_decimal(n as int)],
        None => Seq::empty(),
    }
}

/// The member for `key` when a string is given.
pub open spec fn str_member(key: Seq<char>, v: Option<String>) -> Seq<Seq<char>> {
    match v {
        Some(s) => seq![key + json_string_of(s@)],
        None => Seq::empty(),
    }
}

/// The members of a watch object, in wire order, for the given fields only.
pub open spec fn watch_members(w: Watch) -> Seq<Seq<char>> {
    str_member("\"device\":"@, w.device) + bool_member("\"enable\":"@, w.enable) + bool_member(
        "\"json\":"@,
        w.json,
    ) + bool_member("\"nmea\":"@, w.nmea) + bool_member("\"pps\":"@, w.pps) + int_member(
        "\"raw\":"@,
        w.raw,
    ) + bool_member("\"scaled\":"@, w.scaled) + bool_member("\"split24\":"@, w.split24)
        + bool_member("\"timing\":"@, w.timing) + str_member("\"remote\":"@, w.remote)
}

/// The compact JSON object of a watch configuration.
pub open spec fn watch_json(w: Watch) -> Seq<char> {
    "{"@ + join_commas(watch_members(w)) + "}"@
}

/// Which field a member of a watch object is for, read from the first
/// letters of its key: 1 enable, 2 json, 3 nmea, 4 pps, 5 raw, 6 scaled,
/// 7 split24, 8 timing, 0 any other.
spec fn member_tag(m: Seq<char>) -> int {
    if m.len() < 3 {
        0
    } else if m[1] == 'e' {
        1
    } else if m[1] == 'j' {
        2
    } else if m[1] == 'n' {
        3
    } else if m[1] == 'p' {
        4
    } else if m[1] == 'r' && m[2] == 'a' {
        5
    } else if m[1] == 's' && m[2] == 'c' {
        6
    } else if m[1] == 's' && m[2] == 'p' {
        7
    } else if m[1] == 't' {
        8
    } else {
        0
    }
}

spec fn tag_is(u: int) -> spec_fn(Seq<char>) -> bool {
    |m: Seq<char>| member_tag(m) == u
}

/// A segment of at most one member whose key is `key` keeps all of itself
/// or nothing when members are picked by tag.
proof fn lemma_segment_filter(seg: Seq<Seq<char>>, key: Seq<char>, u: int)
    requires
        key.len() >= 3,
        seg.len() <= 1,
        seg.len() == 1 ==> seg[0].len() >= 3 && seg[0][1] == key[1] && seg[0][2] == key[2],
    ensures
        seg.filter(tag_is(u)) == (if member_tag(key) == u {
            seg
        } else {
            Seq::<Seq<char>>::empty()
        }),
{
    reveal_with_fuel(Seq::<Seq<char>>::filter, 2);
    if seg.len() == 1 {
        assert(seg.drop_last() =~= Seq::<Seq<char>>::empty());
        assert(member_tag(seg[0]) == member_tag(key));
        if member_tag(key) == u {
            assert(seg =~= Seq::<Seq<char>>::empty().push(seg[0]));
        }
    } else {
        assert(seg =~= Seq::<Seq<char>>::empty());
    }
}

proof fn lemma_plain_add(a: Seq<Seq<char>>, b: Seq<Seq<char>>)
    requires
        plain_items(a),
        plain_items(b),
    ensures
        plain_items(a + b),
{
    assert forall|i: int| 0 <= i < (a + b).len() implies (a + b)[i].len() > 0 && (forall|j: int|
        0 <= j < (a + b)[i].len() ==> (a + b)[i][j] != ',') by {
        if i < a.len() {
            assert((a + b)[i] == a[i]);
        } else {
            assert((a + b)[i] == b[i - a.len()]);
        }
    }
}

proof fn lemma_plain_member(key: Seq<char>, value: Seq<char>)
    requires
        key.len() > 0,
        forall|j: int| 0 <= j < key.len() ==> key[j] != ',',
        forall|j: int| 0 <= j < value.len() ==> value[j] != ',',
    ensures
        plain_items(seq![key + value]),
{
    assert forall|j: int| 0 <= j < (key + value).len() implies (key + value)[j] != ',' by {
        if j < key.len() {
            assert((key + value)[j] == key[j]);
        } else {
            assert((key + value)[j] == value[j - key.len()]);
        }
    }
}

proof fn lemma_bool_member(key: Seq<char>, v: Option<bool>, w: Option<bool>)
    requires
        plain_key(key),
    ensures
        plain_items(bool_member(key, v)),
        bool_member(key, v).len() == 1 ==> bool_member(key, v)[0].len() >= 3 && bool_member(
            key,
            v,
        )[0][1] == key[1] && bool_member(key, v)[0][2] == key[2],
        bool_member(key, v) == bool_member(key, w) ==> v == w,
{
    reveal_strlit("true");
    reveal_strlit("false");
    if let Some(b) = v {
        lemma_plain_member(key, bool_text(b));
        assert(bool_member(key, v)[0][1] == key[1]);
        assert(bool_member(key, v)[0][2] == key[2]);
    }
    if bool_member(key, v) == bool_member(key, w) {
        if let Some(b) = v {
            if let Some(c) = w {
                assert(bool_text(b) =~= bool_member(key, v)[0].skip(key.len() as int));
                assert(bool_text(c) =~= bool_member(key, w)[0].skip(key.len() as int));
            }
        }
    }
}

proof fn lemma_int_member(key: Seq<char>, v: Option<i32>, w: Option<i32>)
    requires
        plain_key(key),
    ensures
        plain_items(int_member(key, v)),
        int_member(key, v).len() == 1 ==> int_member(key, v)[0].len() >= 3 && int_member(
            key,
            v,
        )[0][1] == key[1] && int_member(key, v)[0][2] == key[2],
        int_member(key, v) == int_member(key, w) ==> v == w,
{
    if let Some(n) = v {
        lemma_int_decimal_plain(n as int);
        lemma_plain_member(key, int_decimal(n as int));
        assert(int_member(key, v)[0][1] == key[1]);
        assert(int_member(key, v)[0][2] == key[2]);
    }
    if int_member(key, v) == int_member(key, w) {
        if let Some(n) = v {
            if let Some(m) = w {
                assert(int_decimal(n as int) =~= int_member(key, v)[0].skip(key.len() as int));
                assert(int_decimal(m as int) =~= int_member(key, w)[0].skip(key.len() as int));
                lemma_int_decimal_injective(n as int, m as int);
            }
        }
    }
}

proof fn lemma_keys()
    ensures
        member_tag("\"enable\":"@) == 1,
        member_tag("\"json\":"@) == 2,
        member_tag("\"nmea\":"@) == 3,
        member_tag("\"pps\":"@) == 4,
        member_tag("\"raw\":"@) == 5,
        member_tag("\"scaled\":"@) == 6,
        member_tag("\"split24\":"@) == 7,
        member_tag("\"timing\":"@) == 8,
        plain_key("\"enable\":"@),
        plain_key("\"json\":"@),
        plain_key("\"nmea\":"@),
        plain_key("\"pps\":"@),
        plain_key("\"raw\":"@),
        plain_key("\"scaled\":"@),
        plain_key("\"split24\":"@),
        plain_key("\"timing\":"@),
{
    reveal_strlit("\"enable\":");
    reveal_strlit("\"json\":");
    reveal_strlit("\"nmea\":");
    reveal_strlit("\"pps\":");
    reveal_strlit("\"raw\":");
    reveal_strlit("\"scaled\":");
    reveal_strlit("\"split24\":");
    reveal_strlit("\"timing\":");
}

spec fn plain_key(key: Seq<char>) -> bool {
    key.len() >= 3 && forall|j: int| 0 <= j < key.len() ==> key[j] != ','
}

/// The member of field `u` (numbered as in `member_tag`), as a list of at
/// most one member.
spec fn field_segment(w: Watch, u: int) -> Seq<Seq<char>> {
    if u == 1 {
        bool_member("\"enable\":"@, w.enable)
    } else if u == 2 {
        bool_member("\"json\":"@, w.json)
    } else if u == 3 {
        bool_member("\"nmea\":"@, w.nmea)
    } else if u == 4 {
        bool_member("\"pps\":"@, w.pps)
    } else if u == 5 {
        int_member("\"raw\":"@, w.raw)
    } else if u == 6 {
        bool_member("\"scaled\":"@, w.scaled)
    } else if u == 7 {
        bool_member("\"split24\":"@, w.split24)
    } else {
        bool_member("\"timing\":"@, w.timing)
    }
}

proof fn lemma_watch_members_plain_and_filtered(w: Watch, u: int)
    requires
        w.device is None,
        w.remote is None,
        1 <= u <= 8,
    ensures
        plain_items(watch_members(w)),
        watch_members(w).filter(tag_is(u)) == field_segment(w, u),
{
    broadcast use Seq::filter_distributes_over_add;

    lemma_keys();
    let k1 = "\"enable\":"@;
    let k2 = "\"json\":"@;
    let k3 = "\"nmea\":"@;
    let k4 = "\"pps\":"@;
    let k5 = "\"raw\":"@;
    let k6 = "\"scaled\":"@;
    let k7 = "\"split24\":"@;
    let k8 = "\"timing\":"@;
    let e = Seq::<Seq<char>>::empty();
    let s1 = bool_member(k1, w.enable);
    let s2 = bool_member(k2, w.json);
    let s3 = bool_member(k3, w.nmea);
    let s4 = bool_member(k4, w.pps);
    let s5 = int_member(k5, w.raw);
    let s6 = bool_member(k6, w.scaled);
    let s7 = bool_member(k7, w.split24);
    let s8 = bool_member(k8, w.timing);
    lemma_bool_member(k1, w.enable, w.enable);
    lemma_bool_member(k2, w.json, w.json);
    lemma_bool_member(k3, w.nmea, w.nmea);
    lemma_bool_member(k4, w.pps, w.pps);
    lemma_int_member(k5, w.raw, w.raw);
    lemma_bool_member(k6, w.scaled, w.scaled);
    lemma_bool_member(k7, w.split24, w.split24);
    lemma_bool_member(k8, w.timing, w.timing);
    assert(str_member("\"device\":"@, w.device) == e);
    assert(str_member("\"remote\":"@, w.remote) == e);
    assert(watch_members(w) == e + s1 + s2 + s3 + s4 + s5 + s6 + s7 + s8 + e);

    assert(plain_items(e));
    lemma_plain_add(e, s1);
    lemma_plain_add(e + s1, s2);
    lemma_plain_add(e + s1 + s2, s3);
    lemma_plain_add(e + s1 + s2 + s3, s4);
    lemma_plain_add(e + s1 + s2 + s3 + s4, s5);
    lemma_plain_add(e + s1 + s2 + s3 + s4 + s5, s6);
    lemma_plain_add(e + s1 + s2 + s3 + s4 + s5 + s6, s7);
    lemma_plain_add(e + s1 + s2 + s3 + s4 + s5 + s6 + s7, s8);
    lemma_plain_add(e + s1 + s2 + s3 + s4 + s5 + s6 + s7 + s8, e);

    lemma_segment_filter(e, k1, u);
    lemma_segment_filter(s1, k1, u);
    lemma_segment_filter(s2, k2, u);
    lemma_segment_filter(s3, k3, u);
    lemma_segment_filter(s4, k4, u);
    lemma_segment_filter(s5, k5, u);
    lemma_segment_filter(s6, k6, u);
    lemma_segment_filter(s7, k7, u);
    lemma_segment_filter(s8, k8, u);
    assert(watch_members(w).filter(tag_is(u)) =~= field_segment(w, u));
}

proof fn lemma_fields_from_segments(a: Watch, b: Watch)
    requires
        a.device is None,
        a.remote is None,
        b.device is None,
        b.remote is None,
        field_segment(a, 1) == field_segment(b, 1),
        field_segment(a, 2) == field_segment(b, 2),
        field_segment(a, 3) == field_segment(b, 3),
        field_segment(a, 4) == field_segment(b, 4),
        field_segment(a, 5) == field_segment(b, 5),
        field_segment(a, 6) == field_segment(b, 6),
        field_segment(a, 7) == field_segment(b, 7),
        field_segment(a, 8) == field_segment(b, 8),
    ensures
        a == b,
{
    lemma_keys();
    lemma_bool_member("\"enable\":"@, a.enable, b.enable);
    lemma_bool_member("\"json\":"@, a.json, b.json);
    lemma_bool_member("\"nmea\":"@, a.nmea, b.nmea);
    lemma_bool_member("\"pps\":"@, a.pps, b.pps);
    lemma_int_member("\"raw\":"@, a.raw, b.raw);
    lemma_bool_member("\"scaled\":"@, a.scaled, b.scaled);
    lemma_bool_member("\"split24\":"@, a.split24, b.split24);
    lemma_bool_member("\"timing\":"@, a.timing, b.timing);
}

proof fn lemma_same_segment(a: Watch, b: Watch, u: int)
    requires
        a.device is None,
        a.remote is None,
        b.device is None,
        b.remote is None,
        watch_members(a) == watch_members(b),
        1 <= u <= 8,
    ensures
        field_segment(a, u) == field_segment(b, u),
{
    lemma_watch_members_plain_and_filtered(a, u);
    lemma_watch_members_plain_and_filtered(b, u);
}

proof fn lemma_strip_braces(x: Seq<char>, y: Seq<char>)
    requires
        "{"@ + x + "}"@ == "{"@ + y + "}"@,
    ensures
        x == y,
{
    reveal_strlit("{");
    reveal_strlit("}");
    let t = "{"@ + x + "}"@;
    assert(x =~= t.subrange(1, t.len() - 1));
    assert(y =~= t.subrange(1, t.len() - 1));
}

/// Encoding loses nothing for a watch configuration without a device or a
/// remote string: two such configurations that encode to the same text
/// are the same configuration, so the text determines which fields are
/// given and the value of each.
pub proof fn lemma_watch_json_injective(a: Watch, b: Watch)
    requires
        a.device is None,
        a.remote is None,
        b.device is None,
        b.remote is None,
        watch_json(a) == watch_json(b),
    ensures
        a == b,
{
    let ma = watch_members(a);
    let mb = watch_members(b);
    lemma_watch_members_plain_and_filtered(a, 1);
    lemma_watch_members_plain_and_filtered(b, 1);
    lemma_strip_braces(join_commas(ma), join_commas(mb));
    lemma_join_injective(ma, mb);
    lemma_same_segment(a, b, 1);
    lemma_same_segment(a, b, 2);
    lemma_same_segment(a, b, 3);
    lemma_same_segment(a, b, 4);
    lemma_same_segment(a, b, 5);
    lemma_same_segment(a, b, 6);
    lemma_same_segment(a, b, 7);
    lemma_same_segment(a, b, 8);
    lemma_fields_from_segments(a, b);
}

/// The command line of a request.
pub open spec fn command_text(m: RequestMessage) -> Seq<char> {
    match m {
        request::Message::Devices => "?DEVICES;"@,
        request::Message::Watch(None) => "?WATCH;"@,
        request::Message::Watch(Some(w)) => "?WATCH="@ + watch_json(w) + ";"@,
        request::Message::Device(None) => "?DEVICE;"@,
        request::Message::Device(Some(d)) => "?DEVICE="@ + d@ + ";"@,
        request::Message::Poll => "?POLL;"@,
        request::Message::Version => "?VERSION;"@,
    }
}

/// Appends `member` to an object whose members so far are `done`.
fn push_member(out: &mut String, first: bool, member: &str, Ghost(done): Ghost<Seq<Seq<char>>>)
    requires
        old(out)@ == "{"@ + join_commas(done),
        first == (done.len() == 0),
    ensures
        final(out)@ == "{"@ + join_commas(done.push(member@)),
{
    assert(done.push(member@).drop_last() == done);
    if !first {
        out.append(",");
    }
    out.append(member);
    assert(final(out)@ =~= "{"@ + join_commas(done.push(member@)));
}

fn bool_value(b: bool) -> (r: &'static str)
    ensures
        r@ == bool_text(b),
{
    if b {
        "true"
    } else {
        "false"
    }
}

/// Appends the member for `key` when `v` is given.
fn push_bool(
    out: &mut String,
    done: &mut usize,
    key: &str,
    v: Option<bool>,
    Ghost(members): Ghost<Seq<Seq<char>>>,
)
    requires
        old(out)@ == "{"@ + join_commas(members),
        *old(done) == members.len(),
        members.len() < 16,
    ensures
        final(out)@ == "{"@ + join_commas(members + bool_member(key@, v)),
        *final(done) == (members + bool_member(key@, v)).len(),
{
    match v {
        Some(b) => {
            let mut m = String::from_str(key);
            m.append(bool_value(b));
            push_member(out, *done == 0, m.as_str(), Ghost(members));
            *done = *done + 1;
            assert(members + bool_member(key@, v) == members.push(m@));
        },
        None => {
            assert(members + bool_member(key@, v) == members);
        },
    }
}

/// Appends the member for `key` when `v` is given.
fn push_int(
    out: &mut String,
    done: &mut usize,
    key: &str,
    v: Option<i32>,
    Ghost(members): Ghost<Seq<Seq<char>>>,
)
    requires
        old(out)@ == "{"@ + join_commas(members),
        *old(done) == members.len(),
        members.len() < 16,
    ensures
        final(out)@ == "{"@ + join_commas(members + int_member(key@, v)),
        *final(done) == (members + int_member(key@, v)).len(),
{
    match v {
        Some(n) => {
            let mut m = String::from_str(key);
            push_i32_decimal(&mut m, n);
            push_member(out, *done == 0, m.as_str(), Ghost(members));
            *done = *done + 1;
            assert(members + int_member(key@, v) == members.push(m@));
        },
        None => {
            assert(members + int_member(key@, v) == members);
        },
    }
}

/// Appends the member for `key` when `v` is given.
fn push_str(
    out: &mut String,
    done: &mut usize,
    key: &str,
    v: &Option<String>,
    Ghost(members): Ghost<Seq<Seq<char>>>,
)
    requires
        old(out)@ == "{"@ + join_commas(members),
        *old(done) == members.len(),
        members.len() < 16,
    ensures
        final(out)@ == "{"@ + join_commas(members + str_member(key@, *v)),
        *final(done) == (members + str_member(key@, *v)).len(),
{
    match v {
        Some(s) => {
            let mut m = String::from_str(key);
            let q = json_string(s.as_str());
            m.append(q.as_str());
            push_member(out, *done == 0, m.as_str(), Ghost(members));
            *done = *done + 1;
            assert(members + str_member(key@, *v) == members.push(m@));
        },
        None => {
            assert(members + str_member(key@, *v) == members);
        },
    }
}

/// The compact JSON object of a watch configuration: the given fields, in
/// the order device, enable, json, nmea, pps, raw, scaled, split24, timing,
/// remote.
pub fn encode_watch(w: &Watch) -> (r: String)
    ensures
        r@ == watch_json(*w),
{
    let mut out = String::from_str("{");
    let mut done: usize = 0;
    let ghost mut ms: Seq<Seq<char>> = Seq::empty();
    assert(out@ == "{"@ + join_commas(ms));
    push_str(&mut out, &mut done, "\"device\":", &w.device, Ghost(ms));
    proof { ms = ms + str_member("\"device\":"@, w.device); }
    push_bool(&mut out, &mut done, "\"enable\":", w.enable, Ghost(ms));
    proof { ms = ms + bool_member("\"enable\":"@, w.enable); }
    push_bool(&mut out, &mut done, "\"json\":", w.json, Ghost(ms));
    proof { ms = ms + bool_member("\"json\":"@, w.json); }
    push_bool(&mut out, &mut done, "\"nmea\":", w.nmea, Ghost(ms));
    proof { ms = ms + bool_member("\"nmea\":"@, w.nmea); }
    push_bool(&mut out, &mut done, "\"pps\":", w.pps, Ghost(ms));
    proof { ms = ms + bool_member("\"pps\":"@, w.pps); }
    push_int(&mut out, &mut done, "\"raw\":", w.raw, Ghost(ms));
    proof { ms = ms + int_member("\"raw\":"@, w.raw); }
    push_bool(&mut out, &mut done, "\"scaled\":", w.scaled, Ghost(ms));
    proof { ms = ms + bool_member("\"scaled\":"@, w.scaled); }
    push_bool(&mut out, &mut done, "\"split24\":", w.split24, Ghost(ms));
    proof { ms = ms + bool_member("\"split24\":"@, w.split24); }
    push_bool(&mut out, &mut done, "\"timing\":", w.timing, Ghost(ms));
    proof { ms = ms + bool_member("\"timing\":"@, w.timing); }
    push_str(&mut out, &mut done, "\"remote\":", &w.remote, Ghost(ms));
    proof { ms = ms + str_member("\"remote\":"@, w.remote); }
    assert(ms =~= watch_members(*w));
    out.append("}");
    out
}

/// The command line `?NAME=` followed by `param` and `;`.
fn with_param(name: &str, param: &str) -> (r: String)
    ensures
        r@ == name@ + param@ + ";"@,
{
    let mut out = String::from_str(name);
    out.append(param);
    out.append(";");
    out
}

impl GpsdJsonRequest for RequestMessage {
    open spec fn command_spec(&self) -> Seq<char> {
        command_text(*self)
    }

    fn to_command(&self) -> (r: String) {
        match self {
            request::Message::Devices => String::from_str("?DEVICES;"),
            request::Message::Watch(Some(watch)) => {
                let json = encode_watch(watch);
                with_param("?WATCH=", json.as_str())
            },
            request::Message::Watch(None) => String::from_str("?WATCH;"),
            request::Message::Device(Some(device)) => with_param("?DEVICE=", device.as_str()),
            request::Message::Device(None) => String::from_str("?DEVICE;"),
            request::Message::Poll => String::from_str("?POLL;"),
            request::Message::Version => String::from_str("?VERSION;"),
        }
    }
}

} // verus!
