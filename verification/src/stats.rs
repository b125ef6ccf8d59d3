//! Robot statistics, and their recovery from a JSON document that does not have
//! the expected shape.

use vstd::prelude::*;
use vstd::string::*;
use crate::job::opt_text;
use crate::json::{Json, Member, json_document, parse_json};

verus! {

/// The statistics generated for a robot.
#[derive(Clone, Debug, PartialEq, Eq)]
pub struct RobotStatus {
    pub name: String,
    pub lore: String,
    pub hp: i32,
    pub atk: i32,
    pub def: i32,
    pub visual_description: String,
}

pub ghost struct RobotStatusView {
    pub name: Seq<char>,
    pub lore: Seq<char>,
    pub hp: i32,
    pub atk: i32,
    pub def: i32,
    pub visual_description: Seq<char>,
}

impl View for RobotStatus {
    type V = RobotStatusView;

    open spec fn view(&self) -> RobotStatusView {
        RobotStatusView {
            name: self.name@,
            lore: self.lore@,
            hp: self.hp,
            atk: self.atk,
            def: self.def,
            visual_description: self.visual_description@,
        }
    }
}

/// The lower-case form of a text.
pub uninterp spec fn lowercased(s: Seq<char>) -> Seq<char>;

/// `str::to_lowercase`: the lower-case form of a text depends on the text
/// alone.
#[verifier::external_body]
fn lowercase(s: &str) -> (r: String)
    ensures
        r@ == lowercased(s@),
{
    s.to_lowercase()
}

/// The views of a list of keys.
pub open spec fn key_views(keys: Seq<String>) -> Seq<Seq<char>> {
    Seq::new(keys.len(), |i: int| keys[i]@)
}

/// A member's key is wanted when its lower-case form is one of the keys.
pub open spec fn wanted(key: Seq<char>, keys: Seq<Seq<char>>) -> bool {
    keys.contains(lowercased(key))
}

/// The text that a member holds directly under a wanted key.
pub open spec fn held_text(member: Member, keys: Seq<Seq<char>>) -> Option<Seq<char>> {
    match member.value {
        Json::Text(s) if wanted(member.key@, keys) => Some(s@),
        _ => None,
    }
}

/// The integer that a member holds directly under a wanted key.
pub open spec fn held_number(member: Member, keys: Seq<Seq<char>>) -> Option<i64> {
    match member.value {
        Json::Number(Some(n)) if wanted(member.key@, keys) => Some(n),
        _ => None,
    }
}

/// The first text found under a wanted key from member `from` of `v` on, going
/// through the members in order and into each member's value before the next
/// member. Only objects are searched; arrays are not entered.
pub open spec fn scan_text(v: Json, keys: Seq<Seq<char>>, from: nat) -> Option<Seq<char>>
    decreases v, (if v is Object { v->Object_0@.len() - from } else { 0 }),
{
    match v {
        Json::Object(m) => {
            if from >= m.len() {
                None
            } else {
                let member = m[from as int];
                match held_text(member, keys) {
                    Some(s) => Some(s),
                    None => match scan_text(member.value, keys, 0) {
                        Some(s) => Some(s),
                        None => scan_text(v, keys, from + 1),
                    },
                }
            }
        },
        _ => None,
    }
}

/// The first text found under a wanted key anywhere in `v`.
pub open spec fn find_text(v: Json, keys: Seq<Seq<char>>) -> Option<Seq<char>> {
    scan_text(v, keys, 0)
}

/// As `scan_text`, for an integer, which is cut to 32 bits.
pub open spec fn scan_number(v: Json, keys: Seq<Seq<char>>, from: nat) -> Option<i32>
    decreases v, (if v is Object { v->Object_0@.len() - from } else { 0 }),
{
    match v {
        Json::Object(m) => {
            if from >= m.len() {
                None
            } else {
                let member = m[from as int];
                match held_number(member, keys) {
                    Some(n) => Some(n as i32),
                    None => match scan_number(member.value, keys, 0) {
                        Some(n) => Some(n),
                        None => scan_number(v, keys, from + 1),
                    },
                }
            }
        },
        _ => None,
    }
}

/// The first integer found under a wanted key anywhere in `v`.
pub open spec fn find_number(v: Json, keys: Seq<Seq<char>>) -> Option<i32> {
    scan_number(v, keys, 0)
}

/// Whether a key that is already in lower case is one of the keys.
pub fn key_is_listed(lower: &String, keys: &Vec<String>) -> (b: bool)
    ensures
        b == key_views(keys@).contains(lower@),
{
    let ghost views = key_views(keys@);
    let mut i: usize = 0;
    while i < keys.len()
        invariant
            i <= keys.len(),
            views == key_views(keys@),
            forall|j: int| 0 <= j < i ==> views[j] != lower@,
        decreases keys.len() - i,
    {
        if keys[i] == *lower {
            assert(views[i as int] == lower@);
            return true;
        }
        i += 1;
    }
    false
}

fn is_wanted(key: &String, keys: &Vec<String>) -> (b: bool)
    ensures
        b == wanted(key@, key_views(keys@)),
{
    let lower = lowercase(key.as_str());
    key_is_listed(&lower, keys)
}

/// Searches `v` for the first text under one of `keys`, compared without regard
/// to case.
pub fn find_string(v: &Json, keys: &Vec<String>) -> (r: Option<String>)
    ensures
        opt_text(r) == find_text(*v, key_views(keys@)),
    decreases v,
{
    broadcast use vstd::std_specs::vec::axiom_vec_index_decreases;

    match v {
        Json::Object(m) => {
            let ghost ks = key_views(keys@);
            let mut i: usize = 0;
            while i < m.len()
                invariant
                    i <= m.len(),
                    *v == Json::Object(*m),
                    ks == key_views(keys@),
                    find_text(*v, ks) == scan_text(*v, ks, i as nat),
                decreases m.len() - i,
            {
                let member = &m[i];
                if is_wanted(&member.key, keys) {
                    if let Json::Text(s) = &member.value {
                        return Some(s.clone());
                    }
                }
                assert(decreases_to!(v => member.value)) by {
                    assert(decreases_to!(m => m[i as int]));
                }
                if let Some(found) = find_string(&member.value, keys) {
                    return Some(found);
                }
                i += 1;
            }
            None
        },
        _ => None,
    }
}

/// Searches `v` for the first integer under one of `keys`, compared without
/// regard to case, and cuts it to 32 bits.
pub fn find_i32(v: &Json, keys: &Vec<String>) -> (r: Option<i32>)
    ensures
        r == find_number(*v, key_views(keys@)),
    decreases v,
{
    broadcast use vstd::std_specs::vec::axiom_vec_index_decreases;

    match v {
        Json::Object(m) => {
            let ghost ks = key_views(keys@);
            let mut i: usize = 0;
            while i < m.len()
                invariant
                    i <= m.len(),
                    *v == Json::Object(*m),
                    ks == key_views(keys@),
                    find_number(*v, ks) == scan_number(*v, ks, i as nat),
                decreases m.len() - i,
            {
                let member = &m[i];
                if is_wanted(&member.key, keys) {
                    if let Json::Number(Some(n)) = &member.value {
                        return Some(#[verifier::truncate] (*n as i32));
                    }
                }
                assert(decreases_to!(v => member.value)) by {
                    assert(decreases_to!(m => m[i as int]));
                }
                if let Some(found) = find_i32(&member.value, keys) {
                    return Some(found);
                }
                i += 1;
            }
            None
        },
        _ => None,
    }
}

/// The statistics recovered from a document of any shape: each field is the
/// first value found under its key, and its default where none is found.
pub open spec fn recovered(v: Json) -> RobotStatusView {
    RobotStatusView {
        name: match find_text(v, seq!["name"@]) {
            Some(s) => s,
            None => "Unknown Robot"@,
        },
        lore: match find_text(v, seq!["lore"@]) {
            Some(s) => s,
            None => "No lore available."@,
        },
        hp: match find_number(v, seq!["hp"@]) {
            Some(n) => n,
            None => 1000i32,
        },
        atk: match find_number(v, seq!["atk"@]) {
            Some(n) => n,
            None => 50i32,
        },
        def: match find_number(v, seq!["def"@]) {
            Some(n) => n,
            None => 20i32,
        },
        visual_description: match find_text(v, seq!["visual_description"@, "visual_description_en"@]) {
            Some(s) => s,
            None => "A standard mechanical combat robot."@,
        },
    }
}

fn one_key(key: &str) -> (keys: Vec<String>)
    ensures
        key_views(keys@) == seq![key@],
{
    let mut keys: Vec<String> = Vec::new();
    keys.push(String::from_str(key));
    assert(key_views(keys@) =~= seq![key@]);
    keys
}

fn two_keys(first: &str, second: &str) -> (keys: Vec<String>)
    ensures
        key_views(keys@) == seq![first@, second@],
{
    let mut keys: Vec<String> = Vec::new();
    keys.push(String::from_str(first));
    keys.push(String::from_str(second));
    assert(key_views(keys@) =~= seq![first@, second@]);
    keys
}

fn text_or(found: Option<String>, default: &str) -> (r: String)
    ensures
        r@ == (match found {
            Some(s) => s@,
            None => default@,
        }),
{
    match found {
        Some(s) => s,
        None => String::from_str(default),
    }
}

fn number_or(found: Option<i32>, default: i32) -> (r: i32)
    ensures
        r == (match found {
            Some(n) => n,
            None => default,
        }),
{
    match found {
        Some(n) => n,
        None => default,
    }
}

/// Recovers statistics from a document that does not have the expected shape,
/// by searching it for each field's key and filling in the default for a field
/// that is nowhere to be found.
pub fn fallback_stats(v: &Json) -> (s: RobotStatus)
    ensures
        s@ == recovered(*v),
{
    let description_keys = two_keys("visual_description", "visual_description_en");
    RobotStatus {
        name: text_or(find_string(v, &one_key("name")), "Unknown Robot"),
        lore: text_or(find_string(v, &one_key("lore")), "No lore available."),
        hp: number_or(find_i32(v, &one_key("hp")), 1000),
        atk: number_or(find_i32(v, &one_key("atk")), 50),
        def: number_or(find_i32(v, &one_key("def")), 20),
        visual_description: text_or(
            find_string(v, &description_keys),
            "A standard mechanical combat robot.",
        ),
    }
}

/// The text is not a JSON document; `detail` is the parser's message.
#[derive(Clone, Debug, PartialEq, Eq)]
pub struct NotJson {
    pub detail: String,
}

/// Recovers statistics from a response text that could not be read as
/// statistics directly. Succeeds on every JSON document, whatever its shape,
/// and fails exactly where the text is no JSON document at all.
pub fn recover_stats(text: &str) -> (r: Result<RobotStatus, NotJson>)
    ensures
        match json_document(text@) {
            Some(doc) => r is Ok && r->Ok_0@ == recovered(doc),
            None => r is Err,
        },
{
    match parse_json(text) {
        Ok(doc) => Ok(fallback_stats(&doc)),
        Err(detail) => Err(NotJson { detail }),
    }
}

/// A text held directly under a wanted key is found, wherever in the object
/// its member stands, provided that no member before it holds or hides one.
pub proof fn law_held_text_is_found(v: Json, keys: Seq<Seq<char>>, at: nat)
    requires
        v is Object,
        at < v->Object_0@.len(),
        held_text(v->Object_0@[at as int], keys) is Some,
        forall|j: int|
            0 <= j < at ==> held_text(#[trigger] v->Object_0@[j], keys) is None && find_text(
                v->Object_0@[j].value,
                keys,
            ) is None,
    ensures
        find_text(v, keys) == held_text(v->Object_0@[at as int], keys),
{
    lemma_scan_text_skips(v, keys, at, at);
}

proof fn lemma_scan_text_skips(v: Json, keys: Seq<Seq<char>>, at: nat, gap: nat)
    requires
        v is Object,
        gap <= at < v->Object_0@.len(),
        forall|j: int|
            at - gap <= j < at ==> held_text(#[trigger] v->Object_0@[j], keys) is None && find_text(
                v->Object_0@[j].value,
                keys,
            ) is None,
    ensures
        scan_text(v, keys, (at - gap) as nat) == scan_text(v, keys, at),
    decreases gap,
{
    if gap > 0 {
        let from = (at - gap) as nat;
        assert(held_text(v->Object_0@[from as int], keys) is None);
        assert(scan_text(v, keys, from) == scan_text(v, keys, from + 1));
        lemma_scan_text_skips(v, keys, at, (gap - 1) as nat);
    }
}

proof fn lemma_scan_number_skips(v: Json, keys: Seq<Seq<char>>, at: nat, gap: nat)
    requires
        v is Object,
        gap <= at < v->Object_0@.len(),
        forall|j: int|
            at - gap <= j < at ==> held_number(#[trigger] v->Object_0@[j], keys) is None && find_number(
                v->Object_0@[j].value,
                keys,
            ) is None,
    ensures
        scan_number(v, keys, (at - gap) as nat) == scan_number(v, keys, at),
    decreases gap,
{
    if gap > 0 {
        let from = (at - gap) as nat;
        assert(held_number(v->Object_0@[from as int], keys) is None);
        assert(scan_number(v, keys, from) == scan_number(v, keys, from + 1));
        lemma_scan_number_skips(v, keys, at, (gap - 1) as nat);
    }
}

/// An integer held directly under a wanted key is found, cut to 32 bits,
/// wherever in the object its member stands, provided that no member before it
/// holds or hides one.
pub proof fn law_held_number_is_found(v: Json, keys: Seq<Seq<char>>, at: nat)
    requires
        v is Object,
        at < v->Object_0@.len(),
        held_number(v->Object_0@[at as int], keys) is Some,
        forall|j: int|
            0 <= j < at ==> held_number(#[trigger] v->Object_0@[j], keys) is None && find_number(
                v->Object_0@[j].value,
                keys,
            ) is None,
    ensures
        find_number(v, keys) == Some(held_number(v->Object_0@[at as int], keys)->Some_0 as i32),
{
    lemma_scan_number_skips(v, keys, at, at);
}

/// A wrapper does not hide what it holds: the search of an object with a
/// single member, whose value is itself an object, finds what the search of
/// that inner object finds, whatever the member's key.
pub proof fn law_wrapper_is_searched_through(v: Json, keys: Seq<Seq<char>>)
    requires
        v is Object,
        v->Object_0@.len() == 1,
        v->Object_0@[0].value is Object,
    ensures
        find_text(v, keys) == find_text(v->Object_0@[0].value, keys),
        find_number(v, keys) == find_number(v->Object_0@[0].value, keys),
        recovered(v) == recovered(v->Object_0@[0].value),
{
    let inner = v->Object_0@[0].value;
    assert forall|k: Seq<Seq<char>>| #[trigger] find_text(v, k) == find_text(inner, k) by {
        assert(scan_text(v, k, 1) is None);
    }
    assert forall|k: Seq<Seq<char>>| #[trigger] find_number(v, k) == find_number(inner, k) by {
        assert(scan_number(v, k, 1) is None);
    }
}

/// A field that is nowhere in the document gets its default, and the others
/// are not touched by that.
pub proof fn law_missing_field_gets_default(v: Json)
    ensures
        find_text(v, seq!["name"@]) is None ==> recovered(v).name == "Unknown Robot"@,
        find_text(v, seq!["lore"@]) is None ==> recovered(v).lore == "No lore available."@,
        find_number(v, seq!["hp"@]) is None ==> recovered(v).hp == 1000,
        find_number(v, seq!["atk"@]) is None ==> recovered(v).atk == 50,
        find_number(v, seq!["def"@]) is None ==> recovered(v).def == 20,
        find_text(v, seq!["visual_description"@, "visual_description_en"@]) is None ==> recovered(
            v,
        ).visual_description == "A standard mechanical combat robot."@,
        !(v is Object) ==> recovered(v) == (RobotStatusView {
            name: "Unknown Robot"@,
            lore: "No lore available."@,
            hp: 1000,
            atk: 50,
            def: 20,
            visual_description: "A standard mechanical combat robot."@,
        }),
{
}

/// An optional text as a sequence of none or one.
pub open spec fn one_text(t: Option<Seq<char>>) -> Seq<Seq<char>> {
    match t {
        Some(s) => seq![s],
        None => Seq::empty(),
    }
}

/// An optional integer as a sequence of none or one.
pub open spec fn one_number(n: Option<i64>) -> Seq<i64> {
    match n {
        Some(i) => seq![i],
        None => Seq::empty(),
    }
}

/// Every text held under a wanted key from member `from` of `v` on, at any
/// depth below, in the order of the search: a member's own, then those inside
/// its value, then those of the members after it.
pub open spec fn held_texts(v: Json, keys: Seq<Seq<char>>, from: nat) -> Seq<Seq<char>>
    decreases v, (if v is Object { v->Object_0@.len() - from } else { 0 }),
{
    match v {
        Json::Object(m) => {
            if from >= m.len() {
                Seq::empty()
            } else {
                let member = m[from as int];
                one_text(held_text(member, keys)) + held_texts(member.value, keys, 0) + held_texts(
                    v,
                    keys,
                    from + 1,
                )
            }
        },
        _ => Seq::empty(),
    }
}

/// As `held_texts`, for the integers held under a wanted key.
pub open spec fn held_numbers(v: Json, keys: Seq<Seq<char>>, from: nat) -> Seq<i64>
    decreases v, (if v is Object { v->Object_0@.len() - from } else { 0 }),
{
    match v {
        Json::Object(m) => {
            if from >= m.len() {
                Seq::empty()
            } else {
                let member = m[from as int];
                one_number(held_number(member, keys)) + held_numbers(member.value, keys, 0) + held_numbers(
                    v,
                    keys,
                    from + 1,
                )
            }
        },
        _ => Seq::empty(),
    }
}

/// The search gives the first of all the texts held under a wanted key, and
/// nothing only where there is none at any depth.
pub proof fn lemma_scan_gives_first_text(v: Json, keys: Seq<Seq<char>>, from: nat)
    ensures
        scan_text(v, keys, from) == (if held_texts(v, keys, from).len() > 0 {
            Some(held_texts(v, keys, from)[0])
        } else {
            None
        }),
    decreases v, (if v is Object { v->Object_0@.len() - from } else { 0 }),
{
    match v {
        Json::Object(m) => {
            if from < m.len() {
                let member = m[from as int];
                let own = one_text(held_text(member, keys));
                let inner = held_texts(member.value, keys, 0);
                let after = held_texts(v, keys, from + 1);
                lemma_scan_gives_first_text(member.value, keys, 0);
                lemma_scan_gives_first_text(v, keys, from + 1);
                assert(held_texts(v, keys, from) == own + inner + after);
                if own.len() > 0 {
                    assert((own + inner + after)[0] == own[0]);
                } else if inner.len() > 0 {
                    assert((own + inner + after)[0] == inner[0]);
                } else {
                    assert(own + inner + after =~= after);
                }
            }
        },
        _ => {},
    }
}

/// As `lemma_scan_gives_first_text`, for integers.
pub proof fn lemma_scan_gives_first_number(v: Json, keys: Seq<Seq<char>>, from: nat)
    ensures
        scan_number(v, keys, from) == (if held_numbers(v, keys, from).len() > 0 {
            Some(held_numbers(v, keys, from)[0] as i32)
        } else {
            None
        }),
    decreases v, (if v is Object { v->Object_0@.len() - from } else { 0 }),
{
    match v {
        Json::Object(m) => {
            if from < m.len() {
                let member = m[from as int];
                let own = one_number(held_number(member, keys));
                let inner = held_numbers(member.value, keys, 0);
                let after = held_numbers(v, keys, from + 1);
                lemma_scan_gives_first_number(member.value, keys, 0);
                lemma_scan_gives_first_number(v, keys, from + 1);
                assert(held_numbers(v, keys, from) == own + inner + after);
                if own.len() > 0 {
                    assert((own + inner + after)[0] == own[0]);
                } else if inner.len() > 0 {
                    assert((own + inner + after)[0] == inner[0]);
                } else {
                    assert(own + inner + after =~= after);
                }
            }
        },
        _ => {},
    }
}

/// The member that a path of member indices leads to: the first index picks a
/// member of `v`, each further one a member of the value of the member before.
pub open spec fn member_at(v: Json, path: Seq<int>) -> Option<Member>
    decreases path.len(),
{
    match v {
        Json::Object(m) => {
            if path.len() == 0 || !(0 <= path[0] < m.len()) {
                None
            } else if path.len() == 1 {
                Some(m[path[0]])
            } else {
                member_at(m[path[0]].value, path.skip(1))
            }
        },
        _ => None,
    }
}

proof fn lemma_member_is_covered(v: Json, keys: Seq<Seq<char>>, from: nat, at: nat)
    requires
        v is Object,
        from <= at < v->Object_0@.len(),
    ensures
        forall|s: Seq<char>|
            one_text(held_text(v->Object_0@[at as int], keys)).contains(s) || held_texts(
                v->Object_0@[at as int].value,
                keys,
                0,
            ).contains(s) ==> #[trigger] held_texts(v, keys, from).contains(s),
        forall|n: i64|
            one_number(held_number(v->Object_0@[at as int], keys)).contains(n) || held_numbers(
                v->Object_0@[at as int].value,
                keys,
                0,
            ).contains(n) ==> #[trigger] held_numbers(v, keys, from).contains(n),
    decreases at - from,
{
    let member = v->Object_0@[from as int];
    let own = one_text(held_text(member, keys));
    let inner = held_texts(member.value, keys, 0);
    let after = held_texts(v, keys, from + 1);
    let own_n = one_number(held_number(member, keys));
    let inner_n = held_numbers(member.value, keys, 0);
    let after_n = held_numbers(v, keys, from + 1);
    assert(held_texts(v, keys, from) == own + inner + after);
    assert(held_numbers(v, keys, from) == own_n + inner_n + after_n);
    if from < at {
        lemma_member_is_covered(v, keys, from + 1, at);
    }
    assert forall|s: Seq<char>| own.contains(s) || inner.contains(s) || after.contains(s) implies #[trigger] (own
        + inner + after).contains(s) by {
        lemma_concat_contains(own, inner, after, s);
    }
    assert forall|n: i64| own_n.contains(n) || inner_n.contains(n) || after_n.contains(n) implies #[trigger] (
    own_n + inner_n + after_n).contains(n) by {
        lemma_concat_contains(own_n, inner_n, after_n, n);
    }
}

proof fn lemma_concat_contains<T>(a: Seq<T>, b: Seq<T>, c: Seq<T>, x: T)
    requires
        a.contains(x) || b.contains(x) || c.contains(x),
    ensures
        (a + b + c).contains(x),
{
    if a.contains(x) {
        let i = choose|i: int| 0 <= i < a.len() && a[i] == x;
        assert((a + b + c)[i] == x);
    } else if b.contains(x) {
        let i = choose|i: int| 0 <= i < b.len() && b[i] == x;
        assert((a + b + c)[a.len() + i] == x);
    } else {
        let i = choose|i: int| 0 <= i < c.len() && c[i] == x;
        assert((a + b + c)[a.len() + b.len() + i] == x);
    }
}

/// What a member at the end of a path holds under a wanted key is among the
/// values held in the whole document, however long the path.
pub proof fn lemma_held_at_any_depth_is_listed(v: Json, keys: Seq<Seq<char>>, path: Seq<int>)
    requires
        member_at(v, path) is Some,
    ensures
        held_text(member_at(v, path)->Some_0, keys) is Some ==> held_texts(v, keys, 0).contains(
            held_text(member_at(v, path)->Some_0, keys)->Some_0,
        ),
        held_number(member_at(v, path)->Some_0, keys) is Some ==> held_numbers(v, keys, 0).contains(
            held_number(member_at(v, path)->Some_0, keys)->Some_0,
        ),
    decreases path.len(),
{
    let m = v->Object_0@;
    let at = path[0] as nat;
    let end = member_at(v, path)->Some_0;
    lemma_member_is_covered(v, keys, 0, at);
    if path.len() == 1 {
        if held_text(end, keys) is Some {
            let s = held_text(end, keys)->Some_0;
            assert(one_text(held_text(end, keys))[0] == s);
        }
        if held_number(end, keys) is Some {
            let n = held_number(end, keys)->Some_0;
            assert(one_number(held_number(end, keys))[0] == n);
        }
    } else {
        lemma_held_at_any_depth_is_listed(m[at as int].value, keys, path.skip(1));
    }
}

/// A text that stands under a wanted key at the end of any path of wrapper
/// objects, and is the only text under such a key in the whole document, is
/// what the search finds, whatever the wrappers are called.
pub proof fn law_text_held_once_at_any_depth_is_found(v: Json, keys: Seq<Seq<char>>, path: Seq<int>)
    requires
        member_at(v, path) is Some,
        held_text(member_at(v, path)->Some_0, keys) is Some,
        held_texts(v, keys, 0).len() == 1,
    ensures
        find_text(v, keys) == held_text(member_at(v, path)->Some_0, keys),
{
    lemma_held_at_any_depth_is_listed(v, keys, path);
    lemma_scan_gives_first_text(v, keys, 0);
}

/// An integer that stands under a wanted key at the end of any path of wrapper
/// objects, and is the only integer under such a key in the whole document, is
/// what the search finds; where it fits 32 bits, it is found unchanged.
pub proof fn law_number_held_once_at_any_depth_is_found(v: Json, keys: Seq<Seq<char>>, path: Seq<int>)
    requires
        member_at(v, path) is Some,
        held_number(member_at(v, path)->Some_0, keys) is Some,
        held_numbers(v, keys, 0).len() == 1,
    ensures
        find_number(v, keys) == Some(held_number(member_at(v, path)->Some_0, keys)->Some_0 as i32),
        -0x8000_0000 <= held_number(member_at(v, path)->Some_0, keys)->Some_0 <= 0x7fff_ffff ==> find_number(
            v,
            keys,
        )->Some_0 == held_number(member_at(v, path)->Some_0, keys)->Some_0,
{
    lemma_held_at_any_depth_is_listed(v, keys, path);
    lemma_scan_gives_first_number(v, keys, 0);
}

/// Where each of the six fields stands exactly once in the document, under
/// wrappers of any depth and any name, the statistics recovered hold the six
/// values: no field takes its default and no value is lost.
pub proof fn law_fields_held_once_are_recovered(v: Json, s: RobotStatusView)
    requires
        held_texts(v, seq!["name"@], 0) == seq![s.name],
        held_texts(v, seq!["lore"@], 0) == seq![s.lore],
        held_numbers(v, seq!["hp"@], 0) == seq![s.hp as i64],
        held_numbers(v, seq!["atk"@], 0) == seq![s.atk as i64],
        held_numbers(v, seq!["def"@], 0) == seq![s.def as i64],
        held_texts(v, seq!["visual_description"@, "visual_description_en"@], 0) == seq![s.visual_description],
    ensures
        recovered(v) == s,
{
    lemma_scan_gives_first_text(v, seq!["name"@], 0);
    lemma_scan_gives_first_text(v, seq!["lore"@], 0);
    lemma_scan_gives_first_text(v, seq!["visual_description"@, "visual_description_en"@], 0);
    lemma_scan_gives_first_number(v, seq!["hp"@], 0);
    lemma_scan_gives_first_number(v, seq!["atk"@], 0);
    lemma_scan_gives_first_number(v, seq!["def"@], 0);
    assert(seq![s.hp as i64][0] as i32 == s.hp);
    assert(seq![s.atk as i64][0] as i32 == s.atk);
    assert(seq![s.def as i64][0] as i32 == s.def);
}

} // verus!
