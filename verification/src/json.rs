//! JSON values, as far as the records of the APIs need them.

use vstd::prelude::*;

use crate::text::{decimal, push_decimal, text_of};

verus! {

/// A JSON value. The members of an object keep their order.
#[derive(Debug)]
pub enum Json {
    Null,
    Number(i64),
    Text(String),
    Array(Vec<Json>),
    Object(Vec<Member>),
}

/// A member of a JSON object.
#[derive(Debug)]
pub struct Member {
    pub key: String,
    pub value: Json,
}

/// The mathematical form of a JSON value.
pub enum JsonView {
    Null,
    Number(int),
    Text(Seq<char>),
    Array(Seq<JsonView>),
    Object(Seq<MemberView>),
}

/// The mathematical form of a member of a JSON object.
pub struct MemberView {
    pub key: Seq<char>,
    pub value: JsonView,
}

impl View for Json {
    type V = JsonView;

    open spec fn view(&self) -> JsonView
        decreases self,
    {
        match self {
            Json::Null => JsonView::Null,
            Json::Number(n) => JsonView::Number(*n as int),
            Json::Text(text) => JsonView::Text(text@),
            Json::Array(items) => JsonView::Array(
                Seq::new(
                    items@.len(),
                    |i: int|
                        if 0 <= i < items@.len() {
                            items@[i]@
                        } else {
                            JsonView::Null
                        },
                ),
            ),
            Json::Object(members) => JsonView::Object(
                Seq::new(
                    members@.len(),
                    |i: int|
                        if 0 <= i < members@.len() {
                            MemberView { key: members@[i].key@, value: members@[i].value@ }
                        } else {
                            MemberView { key: Seq::<char>::empty(), value: JsonView::Null }
                        },
                ),
            ),
        }
    }
}

/// The keys and values of the members of an object.
pub open spec fn members_view(members: Seq<Member>) -> Seq<MemberView> {
    Seq::new(
        members.len(),
        |i: int|
            if 0 <= i < members.len() {
                MemberView { key: members[i].key@, value: members[i].value@ }
            } else {
                MemberView { key: Seq::<char>::empty(), value: JsonView::Null }
            },
    )
}

/// The values of the items of an array.
pub open spec fn items_view(items: Seq<Json>) -> Seq<JsonView> {
    Seq::new(
        items.len(),
        |i: int|
            if 0 <= i < items.len() {
                items[i]@
            } else {
                JsonView::Null
            },
    )
}

/// The member with a key and a value.
pub open spec fn member(key: Seq<char>, value: JsonView) -> MemberView {
    MemberView { key, value }
}

/// Whether `json` is an object with a member of the given key and value.
pub open spec fn has_member(json: JsonView, key: Seq<char>, value: JsonView) -> bool {
    json matches JsonView::Object(members) && exists|i: int|
        0 <= i < members.len() && #[trigger] members[i] == member(key, value)
}

/// The array of the given texts.
pub open spec fn text_array(texts: Seq<Seq<char>>) -> JsonView {
    JsonView::Array(Seq::new(texts.len(), |i: int| JsonView::Text(texts[i])))
}

/// A text, or `null` where there is none.
pub open spec fn text_or_null(text: Option<Seq<char>>) -> JsonView {
    match text {
        Some(text) => JsonView::Text(text),
        None => JsonView::Null,
    }
}

/// The object without members.
pub open spec fn empty_object() -> JsonView {
    JsonView::Object(Seq::empty())
}

/// The text that `serde_json::to_string` writes for a string: the string in
/// double quotes, with escapes where JSON needs them.
pub uninterp spec fn quoted(text: Seq<char>) -> Seq<char>;

/// Writes a string as JSON with `serde_json::to_string`.
#[verifier::external_body]
pub(crate) fn quote(text: &str) -> (s: String)
    ensures
        s@ == quoted(text@),
{
    serde_json::to_string(text).unwrap_or_default()
}

/// The decimal numeral of an integer, with a minus sign where it is
/// negative.
pub open spec fn integer_text(n: int) -> Seq<char> {
    if n < 0 {
        seq!['-'] + decimal((-n) as nat)
    } else {
        decimal(n as nat)
    }
}

/// The text of a JSON value, without any white space.
pub open spec fn render(json: JsonView) -> Seq<char>
    decreases json, 0nat,
{
    match json {
        JsonView::Null => "null"@,
        JsonView::Number(n) => integer_text(n),
        JsonView::Text(text) => quoted(text),
        JsonView::Array(items) => seq!['['] + render_items(items, items.len()) + seq![']'],
        JsonView::Object(members) => seq!['{'] + render_members(members, members.len())
            + seq!['}'],
    }
}

/// The texts of the first `n` items of an array, with commas between them.
pub open spec fn render_items(items: Seq<JsonView>, n: nat) -> Seq<char>
    decreases items, n,
{
    if n == 0 || n > items.len() {
        Seq::empty()
    } else if n == 1 {
        render(items[0])
    } else {
        render_items(items, (n - 1) as nat) + seq![','] + render(items[n - 1])
    }
}

/// The texts of the first `n` members of an object, with commas between
/// them: each is its key as a JSON string, a colon, and its value.
pub open spec fn render_members(members: Seq<MemberView>, n: nat) -> Seq<char>
    decreases members, n,
{
    if n == 0 || n > members.len() {
        Seq::empty()
    } else if n == 1 {
        quoted(members[0].key) + seq![':'] + render(members[0].value)
    } else {
        render_members(members, (n - 1) as nat) + seq![','] + quoted(members[n - 1].key)
            + seq![':'] + render(members[n - 1].value)
    }
}

impl Json {
    /// Appends the text of the value to `out`.
    #[verifier::loop_isolation(false)]
    pub fn write(&self, out: &mut String)
        ensures
            final(out)@ == old(out)@ + render(self@),
        decreases self,
    {
        proof {
            reveal_strlit("null");
            reveal_strlit("-");
            reveal_strlit("[");
            reveal_strlit("]");
            reveal_strlit("{");
            reveal_strlit("}");
            reveal_strlit(",");
            reveal_strlit(":");
        }
        match self {
            Json::Null => {
                out.append("null");
            },
            Json::Number(n) => {
                if *n < 0 {
                    out.append("-");
                    let magnitude: u64 = ((-(*n + 1)) as u64) + 1;
                    push_decimal(out, magnitude);
                } else {
                    push_decimal(out, *n as u64);
                }
                assert(out@ =~= old(out)@ + render(self@));
            },
            Json::Text(text) => {
                out.append(quote(text.as_str()).as_str());
            },
            Json::Array(items) => {
                out.append("[");
                let ghost views = items_view(items@);
                assert(self@->Array_0 =~= views);
                let mut i: usize = 0;
                while i < items.len()
                    invariant
                        i <= items.len(),
                        *self == Json::Array(*items),
                        views == items_view(items@),
                        out@ == old(out)@ + seq!['['] + render_items(views, i as nat),
                    decreases items.len() - i,
                {
                    if i > 0 {
                        out.append(",");
                    }
                    proof {
                        assert(decreases_to!(*items => items[i as int]));
                        assert(views[i as int] == items@[i as int]@);
                    }
                    items[i].write(out);
                    proof {
                        if i > 0 {
                            assert(render_items(views, (i + 1) as nat) == render_items(
                                views,
                                i as nat,
                            ) + seq![','] + render(views[i as int]));
                        } else {
                            assert(render_items(views, 0) =~= Seq::<char>::empty());
                            assert(render_items(views, 1) == render(views[0]));
                        }
                    }
                    assert(out@ =~= old(out)@ + seq!['['] + render_items(views, (i + 1) as nat));
                    i = i + 1;
                }
                out.append("]");
                assert(out@ =~= old(out)@ + render(self@));
            },
            Json::Object(members) => {
                out.append("{");
                let ghost views = members_view(members@);
                assert(self@->Object_0 =~= views);
                let mut i: usize = 0;
                while i < members.len()
                    invariant
                        i <= members.len(),
                        *self == Json::Object(*members),
                        views == members_view(members@),
                        out@ == old(out)@ + seq!['{'] + render_members(views, i as nat),
                    decreases members.len() - i,
                {
                    if i > 0 {
                        out.append(",");
                    }
                    out.append(quote(members[i].key.as_str()).as_str());
                    out.append(":");
                    proof {
                        assert(decreases_to!(*members => members[i as int]));
                        assert(views[i as int] == member(
                            members@[i as int].key@,
                            members@[i as int].value@,
                        ));
                    }
                    members[i].value.write(out);
                    proof {
                        if i > 0 {
                            assert(render_members(views, (i + 1) as nat) == render_members(
                                views,
                                i as nat,
                            ) + seq![','] + quoted(views[i as int].key) + seq![':'] + render(
                                views[i as int].value,
                            ));
                        } else {
                            assert(render_members(views, 0) =~= Seq::<char>::empty());
                            assert(render_members(views, 1) == quoted(views[0].key) + seq![':']
                                + render(views[0].value));
                        }
                    }
                    assert(out@ =~= old(out)@ + seq!['{'] + render_members(
                        views,
                        (i + 1) as nat,
                    ));
                    i = i + 1;
                }
                out.append("}");
                assert(out@ =~= old(out)@ + render(self@));
            },
        }
    }

    /// The text of the value, without any white space.
    pub fn to_string(&self) -> (s: String)
        ensures
            s@ == render(self@),
    {
        let mut s = String::new();
        self.write(&mut s);
        assert(s@ =~= render(self@));
        s
    }

    /// The JSON string with the characters of `text`.
    pub fn text(text: &str) -> (json: Json)
        ensures
            json@ == JsonView::Text(text@),
    {
        Json::Text(text.to_owned())
    }

    /// The JSON string with the characters of `text`, or `null`.
    pub fn text_or_null(text: &Option<String>) -> (json: Json)
        ensures
            json@ == text_or_null(text_of(*text)),
    {
        match text {
            Some(text) => Json::Text(text.clone()),
            None => Json::Null,
        }
    }

    /// The array of the given strings.
    pub fn texts(list: &Vec<String>) -> (json: Json)
        ensures
            json@ == text_array(crate::tags::texts(list@)),
    {
        let mut items: Vec<Json> = Vec::new();
        let mut i: usize = 0;
        while i < list.len()
            invariant
                i <= list.len(),
                items@.len() == i,
                forall|k: int| 0 <= k < i ==> (#[trigger] items@[k])@ == JsonView::Text(list@[k]@),
            decreases list.len() - i,
        {
            items.push(Json::Text(list[i].clone()));
            i = i + 1;
        }
        let json = Json::Array(items);
        assert(json@->Array_0 =~= text_array(crate::tags::texts(list@))->Array_0);
        json
    }

    /// The array of the given items.
    pub fn array(items: Vec<Json>) -> (json: Json)
        ensures
            json@ == JsonView::Array(items_view(items@)),
    {
        let json = Json::Array(items);
        assert(json@->Array_0 =~= items_view(items@));
        json
    }

    /// The object of the given members.
    pub fn object(members: Vec<Member>) -> (json: Json)
        ensures
            json@ == JsonView::Object(members_view(members@)),
    {
        let json = Json::Object(members);
        assert(json@->Object_0 =~= members_view(members@));
        json
    }

    /// The object without members.
    pub fn empty_object() -> (json: Json)
        ensures
            json@ == empty_object(),
    {
        let json = Json::Object(Vec::new());
        assert(json@->Object_0 =~= Seq::empty());
        json
    }
}

/// Adds a member to the members of an object.
pub fn put_member(members: &mut Vec<Member>, key: &str, value: Json)
    ensures
        members_view(final(members)@) == members_view(old(members)@).push(member(key@, value@)),
{
    members.push(Member { key: key.to_owned(), value });
    assert(members_view(members@) =~= members_view(old(members)@).push(member(key@, value@)));
}

/// Adds an item to the items of an array.
pub fn put_item(items: &mut Vec<Json>, value: Json)
    ensures
        items_view(final(items)@) == items_view(old(items)@).push(value@),
{
    items.push(value);
    assert(items_view(items@) =~= items_view(old(items)@).push(value@));
}

} // verus!
