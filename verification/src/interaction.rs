//! Command options, and the rules that decode them from a JSON object.
use vstd::prelude::*;
use crate::json::{field, field_index, find_field, lemma_field_index, JsonNumber, JsonValue};
use crate::kinds::LocalCommandOptionType;
use crate::resolved::CommandInteractionResolved;

verus! {

/// Why a JSON value does not describe a command option.
#[derive(Copy, Clone, Debug, PartialEq, Eq, Structural)]
pub enum InteractionError {
    /// The value is not an object.
    ExpectedObject,
    /// The object has no `name`.
    MissingName,
    /// The `name` is not a string.
    NameNotString,
    /// The object has no `type`.
    MissingType,
    /// The `type` is not a non-negative integer.
    TypeNotUnsigned,
    /// The `options` are not an array.
    OptionsNotArray,
    /// The `focused` member is not a boolean.
    FocusedNotBool,
}

/// An option of an application command, as the user gave it.
#[derive(Debug)]
pub struct CommandInteraction {
    /// The name of the parameter.
    pub name: String,
    /// The given value.
    pub value: Option<JsonValue>,
    /// The value type.
    pub kind: LocalCommandOptionType,
    /// The nested options; only a subcommand or a group has them.
    pub options: Vec<CommandInteraction>,
    /// The resolved object of the given `value`, if there is one.
    pub resolved: Option<CommandInteractionResolved>,
    /// For an autocomplete request, whether this option has the focus.
    pub focused: bool,
}

/// The option type that a `type` member gives: only a non-negative integer
/// gives one.
pub open spec fn option_type_of(v: JsonValue) -> Option<LocalCommandOptionType> {
    match v {
        JsonValue::Number(JsonNumber::PosInt(n)) => Some(LocalCommandOptionType::spec_from_num(n)),
        _ => None,
    }
}

/// An option type written as its number, as the encoder writes the `type`
/// member, reads back as itself.
pub proof fn lemma_option_type_member_round_trip(kind: LocalCommandOptionType)
    ensures
        option_type_of(JsonValue::Number(JsonNumber::PosInt(kind.spec_num()))) == Some(kind),
{
}

/// The reason, if any, why `json` does not describe a command option. The
/// members are checked in the order `name`, `type`, `options` (each nested
/// option in turn), `focused`.
pub open spec fn interaction_error(json: JsonValue) -> Option<InteractionError>
    decreases json,
{
    match json {
        JsonValue::Object(entries) => {
            let name = field(entries@, "name"@);
            let kind = field(entries@, "type"@);
            let oi = field_index(entries@, "options"@);
            let focused = field(entries@, "focused"@);
            proof {
                lemma_field_index(entries@, "options"@);
            }
            let options_error = if oi >= 0 {
                match entries@[oi].1 {
                    JsonValue::Array(items) => options_error(items@),
                    _ => Some(InteractionError::OptionsNotArray),
                }
            } else {
                None
            };
            if name is None {
                Some(InteractionError::MissingName)
            } else if !(name->0 is String) {
                Some(InteractionError::NameNotString)
            } else if kind is None {
                Some(InteractionError::MissingType)
            } else if option_type_of(kind->0) is None {
                Some(InteractionError::TypeNotUnsigned)
            } else if options_error is Some {
                options_error
            } else if focused matches Some(f) && !(f is Bool) {
                Some(InteractionError::FocusedNotBool)
            } else {
                None
            }
        },
        _ => Some(InteractionError::ExpectedObject),
    }
}

/// The first reason, in order, why one of `items` does not describe a
/// command option.
pub open spec fn options_error(items: Seq<JsonValue>) -> Option<InteractionError>
    decreases items,
{
    if items.len() == 0 {
        None
    } else {
        match interaction_error(items[0]) {
            Some(e) => Some(e),
            None => options_error(items.drop_first()),
        }
    }
}

/// `ci` is the command option that `json` describes: the `name`, `value`,
/// `type` and `focused` members give the fields of those names (no
/// `focused` member means `false`), each nested option is the one that the
/// matching item of `options` describes (no `options` member means none),
/// and nothing is resolved.
pub open spec fn parses_to(json: JsonValue, ci: CommandInteraction) -> bool
    decreases json,
{
    match json {
        JsonValue::Object(entries) => {
            let oi = field_index(entries@, "options"@);
            proof {
                lemma_field_index(entries@, "options"@);
            }
            let options_ok = if oi >= 0 {
                match entries@[oi].1 {
                    JsonValue::Array(items) => options_parse(items@, ci.options@),
                    _ => false,
                }
            } else {
                ci.options@.len() == 0
            };
            &&& field(entries@, "name"@) == Some(JsonValue::String(ci.name))
            &&& ci.value == field(entries@, "value"@)
            &&& field(entries@, "type"@) matches Some(t) && option_type_of(t) == Some(ci.kind)
            &&& options_ok
            &&& ci.resolved is None
            &&& ci.focused == match field(entries@, "focused"@) {
                Some(JsonValue::Bool(b)) => b,
                _ => false,
            }
        },
        _ => false,
    }
}

/// Each of `cis` is the command option that the matching one of `items`
/// describes.
pub open spec fn options_parse(items: Seq<JsonValue>, cis: Seq<CommandInteraction>) -> bool
    decreases items,
{
    &&& items.len() == cis.len()
    &&& items.len() == 0 || (parses_to(items[0], cis[0]) && options_parse(
        items.drop_first(),
        cis.drop_first(),
    ))
}

/// Matching options pair up one to one and in order.
pub proof fn lemma_options_parse_pairs(items: Seq<JsonValue>, cis: Seq<CommandInteraction>)
    requires
        options_parse(items, cis),
    ensures
        items.len() == cis.len(),
        forall|i: int| 0 <= i < items.len() ==> parses_to(#[trigger] items[i], cis[i]),
    decreases items.len(),
{
    if items.len() > 0 {
        lemma_options_parse_pairs(items.drop_first(), cis.drop_first());
        assert forall|i: int| 0 <= i < items.len() implies parses_to(#[trigger] items[i], cis[i]) by {
            if i > 0 {
                assert(items[i] == items.drop_first()[i - 1]);
                assert(cis[i] == cis.drop_first()[i - 1]);
            }
        }
    }
}

/// The items of an options array are refused, if at all, for the reason of
/// the first item that is refused: no error means every item decodes, and an
/// error is that of some item all of whose predecessors decode.
pub proof fn lemma_options_error_first(items: Seq<JsonValue>)
    ensures
        options_error(items) is None <==> forall|i: int|
            0 <= i < items.len() ==> #[trigger] interaction_error(items[i]) is None,
        options_error(items) matches Some(e) ==> exists|i: int|
            0 <= i < items.len() && #[trigger] interaction_error(items[i]) == Some(e) && forall|j: int|
                0 <= j < i ==> #[trigger] interaction_error(items[j]) is None,
    decreases items.len(),
{
    if items.len() > 0 {
        let rest = items.drop_first();
        lemma_options_error_first(rest);
        assert forall|i: int| 0 < i < items.len() implies items[i] == #[trigger] rest[i - 1] by {}
        if interaction_error(items[0]) is None {
            if let Some(e) = options_error(items) {
                let k = choose|k: int|
                    0 <= k < rest.len() && #[trigger] interaction_error(rest[k]) == Some(e) && forall|j: int|
                        0 <= j < k ==> #[trigger] interaction_error(rest[j]) is None;
                assert(items[k + 1] == rest[k]);
                assert forall|j: int| 0 <= j < k + 1 implies #[trigger] interaction_error(items[j]) is None by {
                    if j > 0 {
                        assert(items[j] == rest[j - 1]);
                    }
                }
            }
            if forall|i: int| 0 <= i < rest.len() ==> #[trigger] interaction_error(rest[i]) is None {
                assert forall|i: int| 0 <= i < items.len() implies #[trigger] interaction_error(items[i]) is None by {
                    if i > 0 {
                        assert(items[i] == rest[i - 1]);
                    }
                }
            }
            if forall|i: int| 0 <= i < items.len() ==> #[trigger] interaction_error(items[i]) is None {
                assert forall|i: int| 0 <= i < rest.len() implies #[trigger] interaction_error(rest[i]) is None by {
                    assert(rest[i] == items[i + 1]);
                }
            }
        }
    }
}

/// What a decoded option holds, read off the object it came from: the
/// `name` member is its name; the `value` member, exactly as given (or its
/// absence), is its value; a `type` member that is the non-negative integer
/// `n` makes its kind the option type numbered `n` (so its number is `n`
/// whenever `n` numbers an option type); the `options` member, an array of
/// `m` items, gives exactly `m` nested options, the `i`-th decoded from the
/// `i`-th item (no member gives none); a boolean `focused` member is its
/// focus (no member means unfocused); and nothing is resolved.
pub proof fn lemma_decoded_members(json: JsonValue, ci: CommandInteraction)
    requires
        parses_to(json, ci),
    ensures
        json is Object,
        field(json->Object_0@, "name"@) == Some(JsonValue::String(ci.name)),
        ci.value == field(json->Object_0@, "value"@),
        field(json->Object_0@, "type"@) matches Some(JsonValue::Number(JsonNumber::PosInt(n))) && ci.kind
            == LocalCommandOptionType::spec_from_num(n) && ((1 <= n <= 11 || n == 255) ==> ci.kind.spec_num() == n),
        field(json->Object_0@, "options"@) is None ==> ci.options@.len() == 0,
        field(json->Object_0@, "options"@) matches Some(JsonValue::Array(items)) ==> {
            &&& ci.options@.len() == items@.len()
            &&& forall|i: int| 0 <= i < items@.len() ==> parses_to(#[trigger] items@[i], ci.options@[i])
        },
        field(json->Object_0@, "focused"@) matches Some(JsonValue::Bool(b)) ==> ci.focused == b,
        field(json->Object_0@, "focused"@) is None ==> !ci.focused,
        ci.resolved is None,
{
    let entries = json->Object_0;
    lemma_field_index(entries@, "options"@);
    let oi = field_index(entries@, "options"@);
    if oi >= 0 {
        if let JsonValue::Array(items) = entries@[oi].1 {
            lemma_options_parse_pairs(items@, ci.options@);
        }
    }
}

/// An object decodes whenever its `name` is a string, its `type` is any
/// non-negative integer, its `options` (if present) are an array whose items
/// all decode, and its `focused` member (if present) is a boolean.
pub proof fn lemma_well_formed_decodes(json: JsonValue)
    requires
        json is Object,
        field(json->Object_0@, "name"@) matches Some(JsonValue::String(_)),
        field(json->Object_0@, "type"@) matches Some(JsonValue::Number(JsonNumber::PosInt(_))),
        field(json->Object_0@, "options"@) matches Some(o) ==> (o matches JsonValue::Array(items)
            && forall|i: int| 0 <= i < items@.len() ==> #[trigger] interaction_error(items@[i]) is None),
        field(json->Object_0@, "focused"@) matches Some(f) ==> f is Bool,
    ensures
        interaction_error(json) is None,
{
    let entries = json->Object_0;
    lemma_field_index(entries@, "options"@);
    let oi = field_index(entries@, "options"@);
    if oi >= 0 {
        if let JsonValue::Array(items) = entries@[oi].1 {
            lemma_options_error_first(items@);
        }
    }
}

/// A value that is not an object is refused as such.
pub proof fn lemma_refuses_non_object(json: JsonValue)
    requires
        !(json is Object),
    ensures
        interaction_error(json) == Some(InteractionError::ExpectedObject),
{
}

/// An object without a `name` is refused for it, before anything else.
pub proof fn lemma_refuses_missing_name(json: JsonValue)
    requires
        json is Object,
        field(json->Object_0@, "name"@) is None,
    ensures
        interaction_error(json) == Some(InteractionError::MissingName),
{
}

/// An object whose `name` is not a string is refused for it, before
/// anything else is looked at.
pub proof fn lemma_refuses_non_string_name(json: JsonValue)
    requires
        json is Object,
        field(json->Object_0@, "name"@) is Some,
        !(field(json->Object_0@, "name"@)->0 is String),
    ensures
        interaction_error(json) == Some(InteractionError::NameNotString),
{
}

/// An object with a string `name` but no `type` is refused for the type.
pub proof fn lemma_refuses_missing_type(json: JsonValue)
    requires
        json is Object,
        field(json->Object_0@, "name"@) matches Some(JsonValue::String(_)),
        field(json->Object_0@, "type"@) is None,
    ensures
        interaction_error(json) == Some(InteractionError::MissingType),
{
}

/// An object with a string `name` whose `type` is not a non-negative integer
/// is refused for the type.
pub proof fn lemma_refuses_bad_type(json: JsonValue)
    requires
        json is Object,
        field(json->Object_0@, "name"@) matches Some(JsonValue::String(_)),
        field(json->Object_0@, "type"@) is Some,
        !(field(json->Object_0@, "type"@)->0 matches JsonValue::Number(JsonNumber::PosInt(_))),
    ensures
        interaction_error(json) == Some(InteractionError::TypeNotUnsigned),
{
}

/// Past a good `name` and `type`, `options` that are not an array are
/// refused.
pub proof fn lemma_refuses_options_not_array(json: JsonValue)
    requires
        json is Object,
        field(json->Object_0@, "name"@) matches Some(JsonValue::String(_)),
        field(json->Object_0@, "type"@) matches Some(JsonValue::Number(JsonNumber::PosInt(_))),
        field(json->Object_0@, "options"@) is Some,
        !(field(json->Object_0@, "options"@)->0 is Array),
    ensures
        interaction_error(json) == Some(InteractionError::OptionsNotArray),
{
    lemma_field_index(json->Object_0@, "options"@);
}

/// Past a good `name` and `type`, the first item of the `options` array that
/// is refused decides the object's refusal.
pub proof fn lemma_refuses_first_bad_option(json: JsonValue, i: int)
    requires
        json is Object,
        field(json->Object_0@, "name"@) matches Some(JsonValue::String(_)),
        field(json->Object_0@, "type"@) matches Some(JsonValue::Number(JsonNumber::PosInt(_))),
        field(json->Object_0@, "options"@) matches Some(JsonValue::Array(items)) && 0 <= i < items@.len()
            && interaction_error(items@[i]) is Some && forall|j: int|
            0 <= j < i ==> #[trigger] interaction_error(items@[j]) is None,
    ensures
        interaction_error(json) == interaction_error(field(json->Object_0@, "options"@)->0->Array_0@[i]),
{
    lemma_field_index(json->Object_0@, "options"@);
    let items = field(json->Object_0@, "options"@)->0->Array_0@;
    lemma_options_error_prefix(items, i);
    assert(items.skip(i)[0] == items[i]);
}

/// Past a good `name`, `type` and `options`, a `focused` member that is not a
/// boolean is refused.
pub proof fn lemma_refuses_focused_not_bool(json: JsonValue)
    requires
        json is Object,
        field(json->Object_0@, "name"@) matches Some(JsonValue::String(_)),
        field(json->Object_0@, "type"@) matches Some(JsonValue::Number(JsonNumber::PosInt(_))),
        field(json->Object_0@, "options"@) matches Some(o) ==> (o matches JsonValue::Array(items)
            && forall|i: int| 0 <= i < items@.len() ==> #[trigger] interaction_error(items@[i]) is None),
        field(json->Object_0@, "focused"@) is Some,
        !(field(json->Object_0@, "focused"@)->0 is Bool),
    ensures
        interaction_error(json) == Some(InteractionError::FocusedNotBool),
{
    lemma_field_index(json->Object_0@, "options"@);
    let oi = field_index(json->Object_0@, "options"@);
    if oi >= 0 {
        if let JsonValue::Array(items) = json->Object_0@[oi].1 {
            lemma_options_error_first(items@);
        }
    }
}

/// When every item before position `i` decodes, the items' first refusal is
/// the one of the items from `i` on.
proof fn lemma_options_error_prefix(items: Seq<JsonValue>, i: int)
    requires
        0 <= i <= items.len(),
        forall|j: int| 0 <= j < i ==> #[trigger] interaction_error(items[j]) is None,
    ensures
        options_error(items) == options_error(items.skip(i)),
    decreases i,
{
    if i > 0 {
        let rest = items.drop_first();
        assert(interaction_error(items[0]) is None);
        assert forall|j: int| 0 <= j < i - 1 implies #[trigger] interaction_error(rest[j]) is None by {
            assert(rest[j] == items[j + 1]);
        }
        lemma_options_error_prefix(rest, i - 1);
        assert(rest.skip(i - 1) =~= items.skip(i));
    } else {
        assert(items.skip(0) =~= items);
    }
}

/// Appending a matching pair keeps every option matched.
proof fn lemma_options_parse_push(
    items: Seq<JsonValue>,
    cis: Seq<CommandInteraction>,
    j: JsonValue,
    c: CommandInteraction,
)
    requires
        options_parse(items, cis),
        parses_to(j, c),
    ensures
        options_parse(items.push(j), cis.push(c)),
    decreases items.len(),
{
    if items.len() > 0 {
        lemma_options_parse_push(items.drop_first(), cis.drop_first(), j, c);
        assert(items.push(j).drop_first() =~= items.drop_first().push(j));
        assert(cis.push(c).drop_first() =~= cis.drop_first().push(c));
    } else {
        assert(items.push(j).drop_first() =~= items);
        assert(cis.push(c).drop_first() =~= cis);
    }
}

/// The value of the member at position `i`, if a position is given.
spec fn member_at(entries: Seq<(String, JsonValue)>, i: Option<usize>) -> Option<JsonValue> {
    match i {
        Some(p) => Some(entries[p as int].1),
        None => None,
    }
}

/// The value of the member at position `i` when it lies at or after `n`.
spec fn member_at_from(entries: Seq<(String, JsonValue)>, i: Option<usize>, n: int) -> Option<
    JsonValue,
> {
    match i {
        Some(p) => if p >= n {
            Some(entries[p as int].1)
        } else {
            None
        },
        None => None,
    }
}

fn is_at(i: Option<usize>, p: usize) -> (b: bool)
    ensures
        b == (i == Some(p)),
{
    match i {
        Some(q) => q == p,
        None => false,
    }
}

/// Two positions that are both given are different.
spec fn apart(a: Option<usize>, b: Option<usize>) -> bool {
    a is Some && b is Some ==> a != b
}

/// Moves the values of the members at five distinct positions out of an
/// object.
fn take_members(
    entries: Vec<(String, JsonValue)>,
    a: Option<usize>,
    b: Option<usize>,
    c: Option<usize>,
    d: Option<usize>,
    e: Option<usize>,
) -> (r: (Option<JsonValue>, Option<JsonValue>, Option<JsonValue>, Option<JsonValue>, Option<JsonValue>))
    requires
        a matches Some(p) ==> p < entries.len(),
        b matches Some(p) ==> p < entries.len(),
        c matches Some(p) ==> p < entries.len(),
        d matches Some(p) ==> p < entries.len(),
        e matches Some(p) ==> p < entries.len(),
        apart(a, b), apart(a, c), apart(a, d), apart(a, e),
        apart(b, c), apart(b, d), apart(b, e),
        apart(c, d), apart(c, e),
        apart(d, e),
    ensures
        r.0 == member_at(entries@, a),
        r.1 == member_at(entries@, b),
        r.2 == member_at(entries@, c),
        r.3 == member_at(entries@, d),
        r.4 == member_at(entries@, e),
{
    let ghost all = entries@;
    let mut entries = entries;
    let mut ra: Option<JsonValue> = None;
    let mut rb: Option<JsonValue> = None;
    let mut rc: Option<JsonValue> = None;
    let mut rd: Option<JsonValue> = None;
    let mut re: Option<JsonValue> = None;
    assert(all.take(all.len() as int) =~= all);
    while entries.len() > 0
        invariant
            entries.len() <= all.len(),
            entries@ == all.take(entries.len() as int),
            ra == member_at_from(all, a, entries.len() as int),
            rb == member_at_from(all, b, entries.len() as int),
            rc == member_at_from(all, c, entries.len() as int),
            rd == member_at_from(all, d, entries.len() as int),
            re == member_at_from(all, e, entries.len() as int),
            apart(a, b), apart(a, c), apart(a, d), apart(a, e),
            apart(b, c), apart(b, d), apart(b, e),
            apart(c, d), apart(c, e),
            apart(d, e),
        decreases entries.len(),
    {
        let ghost before = entries@;
        let (_key, v) = entries.pop().unwrap();
        let p = entries.len();
        assert(before.drop_last() =~= all.take(p as int));
        assert(v == all[p as int].1);
        if is_at(a, p) {
            ra = Some(v);
        } else if is_at(b, p) {
            rb = Some(v);
        } else if is_at(c, p) {
            rc = Some(v);
        } else if is_at(d, p) {
            rd = Some(v);
        } else if is_at(e, p) {
            re = Some(v);
        }
    }
    (ra, rb, rc, rd, re)
}

impl CommandInteraction {
    /// Decodes a command option from a JSON object.
    ///
    /// The `name` must be a string and the `type` a non-negative integer; the
    /// `value` is kept as it is; the `options`, when present, must be an array
    /// of objects that each decode in turn; `focused`, when present, must be a
    /// boolean. Nothing is resolved. On failure the error names the first
    /// member, in that order, that is missing or of the wrong kind.
    pub fn from_json(json: JsonValue) -> (r: Result<CommandInteraction, InteractionError>)
        ensures
            match r {
                Ok(ci) => interaction_error(json) is None && parses_to(json, ci),
                Err(e) => interaction_error(json) == Some(e),
            },
        decreases json,
    {
        let ghost j0 = json;
        let entries = match json {
            JsonValue::Object(entries) => entries,
            _ => return Err(InteractionError::ExpectedObject),
        };
        let ghost e0 = entries;
        proof {
            reveal_strlit("name");
            reveal_strlit("value");
            reveal_strlit("type");
            reveal_strlit("options");
            reveal_strlit("focused");
            lemma_field_index(entries@, "name"@);
            lemma_field_index(entries@, "value"@);
            lemma_field_index(entries@, "type"@);
            lemma_field_index(entries@, "options"@);
            lemma_field_index(entries@, "focused"@);
            assert("name"@[0] != "type"@[0]);
            assert("options"@[0] != "focused"@[0]);
        }
        let name_i = find_field(&entries, &"name".to_owned());
        let value_i = find_field(&entries, &"value".to_owned());
        let type_i = find_field(&entries, &"type".to_owned());
        let options_i = find_field(&entries, &"options".to_owned());
        let focused_i = find_field(&entries, &"focused".to_owned());
        let (name_v, value_v, type_v, options_v, focused_v) = take_members(
            entries,
            name_i,
            value_i,
            type_i,
            options_i,
            focused_i,
        );
        assert(name_v == field(e0@, "name"@));
        assert(value_v == field(e0@, "value"@));
        assert(type_v == field(e0@, "type"@));
        assert(focused_v == field(e0@, "focused"@));
        let name = match name_v {
            Some(JsonValue::String(s)) => s,
            Some(_) => return Err(InteractionError::NameNotString),
            None => return Err(InteractionError::MissingName),
        };
        let kind = match type_v {
            Some(JsonValue::Number(JsonNumber::PosInt(n))) => LocalCommandOptionType::from_num(n),
            Some(_) => return Err(InteractionError::TypeNotUnsigned),
            None => return Err(InteractionError::MissingType),
        };
        let mut options: Vec<CommandInteraction> = Vec::new();
        match options_v {
            Some(JsonValue::Array(items)) => {
                let ghost oi = field_index(e0@, "options"@);
                let ghost orig = items;
                assert(e0@[oi].1 == JsonValue::Array(orig));
                let mut items = items;
                let mut k: usize = 0;
                assert(orig@.skip(0) =~= orig@);
                assert(orig@.take(0) =~= Seq::<JsonValue>::empty());
                while items.len() > 0
                    invariant
                        k <= orig@.len(),
                        k + items@.len() == orig@.len(),
                        items@ == orig@.skip(k as int),
                        options_error(orig@) == options_error(orig@.skip(k as int)),
                        options_parse(orig@.take(k as int), options@),
                        j0 == json,
                        j0 == JsonValue::Object(e0),
                        0 <= oi < e0@.len(),
                        oi == field_index(e0@, "options"@),
                        field(e0@, "name"@) matches Some(JsonValue::String(_)),
                        field(e0@, "type"@) matches Some(t) && option_type_of(t) is Some,
                        e0@[oi].1 == JsonValue::Array(orig),
                    decreases items.len(),
                {
                    assert(orig@.len() == orig.len());
                    let item = items.remove(0);
                    assert(item == orig@[k as int]);
                    assert(decreases_to!(j0 => orig@[k as int])) by {
                        assert(j0->Object_0 == e0);
                        assert(decreases_to!(j0 => j0->Object_0));
                        assert(decreases_to!(e0 => e0@));
                        assert(decreases_to!(e0@ => e0@[oi]));
                        assert(decreases_to!(e0@[oi] => e0@[oi].1));
                        assert(e0@[oi].1->Array_0 == orig);
                        assert(decreases_to!(e0@[oi].1 => e0@[oi].1->Array_0));
                        assert(decreases_to!(orig => orig@));
                        assert(decreases_to!(orig@ => orig@[k as int]));
                    }
                    let ghost rest = orig@.skip(k as int);
                    assert(rest[0] == orig@[k as int]);
                    assert(rest.drop_first() =~= orig@.skip(k + 1));
                    assert(orig@.take(k + 1) =~= orig@.take(k as int).push(orig@[k as int]));
                    match Self::from_json(item) {
                        Ok(ci) => {
                            proof {
                                lemma_options_parse_push(orig@.take(k as int), options@, orig@[k as int], ci);
                            }
                            options.push(ci);
                            k = k + 1;
                        },
                        Err(e) => {
                            return Err(e);
                        },
                    }
                }
                assert(orig@.skip(k as int) =~= Seq::<JsonValue>::empty());
                assert(orig@.take(k as int) =~= orig@);
            },
            Some(_) => return Err(InteractionError::OptionsNotArray),
            None => {},
        }
        let focused = match focused_v {
            Some(JsonValue::Bool(b)) => b,
            Some(_) => return Err(InteractionError::FocusedNotBool),
            None => false,
        };
        Ok(CommandInteraction { name, value: value_v, kind, options, resolved: None, focused })
    }
}

} // verus!
