//! The session store: a small key/value store of named cookies.
//!
//! The store is an explicit value. Whoever needs the session state is
//! handed the store; nothing is read from or written to ambient state. Its
//! mathematical model is a map from cookie names to what is stored under
//! them.

use vstd::prelude::*;
use vstd::string::*;
use crate::utils::text::str_eq;

verus! {

/// One stored cookie.
struct Cookie {
    name: String,
    value: String,
    path: &'static str,
}

/// What the store holds under one name.
pub struct CookieView {
    pub value: Seq<char>,
    pub path: Seq<char>,
}

impl View for Cookie {
    type V = CookieView;

    closed spec fn view(&self) -> CookieView {
        CookieView { value: self.value@, path: self.path@ }
    }
}

/// The path under which [`set_cookie`] stores every cookie.
pub open spec fn cookie_path() -> Seq<char> {
    "/"@
}

/// No two cookies of the list have the same name.
spec fn distinct_names(cookies: Seq<Cookie>) -> bool {
    forall|i: int, j: int|
        0 <= i < j < cookies.len() ==> (#[trigger] cookies[i]).name@ != (#[trigger] cookies[j]).name@
}

/// Whether a cookie of the list has the given name.
spec fn has_name(cookies: Seq<Cookie>, name: Seq<char>) -> bool {
    exists|i: int| 0 <= i < cookies.len() && (#[trigger] cookies[i]).name@ == name
}

/// The place of a cookie with the given name, if the list has one.
spec fn place_of(cookies: Seq<Cookie>, name: Seq<char>) -> int {
    choose|i: int| 0 <= i < cookies.len() && (#[trigger] cookies[i]).name@ == name
}

/// The map that a list of cookies stands for.
spec fn jar_of(cookies: Seq<Cookie>) -> Map<Seq<char>, CookieView> {
    Map::new(
        |name: Seq<char>| has_name(cookies, name),
        |name: Seq<char>| cookies[place_of(cookies, name)]@,
    )
}

/// Under the name of each cookie of a list without repeated names, the map
/// holds that cookie.
proof fn lemma_jar_holds_each(cookies: Seq<Cookie>, i: int)
    requires
        distinct_names(cookies),
        0 <= i < cookies.len(),
    ensures
        jar_of(cookies).contains_key(cookies[i].name@),
        jar_of(cookies)[cookies[i].name@] == cookies[i]@,
{
    let name = cookies[i].name@;
    assert(has_name(cookies, name));
    let k = place_of(cookies, name);
    assert(0 <= k < cookies.len() && cookies[k].name@ == name);
    assert(k == i);
}

/// Appending a cookie whose name is new inserts it into the map.
proof fn lemma_jar_push(cookies: Seq<Cookie>, cookie: Cookie)
    requires
        distinct_names(cookies),
        !has_name(cookies, cookie.name@),
    ensures
        distinct_names(cookies.push(cookie)),
        jar_of(cookies.push(cookie)) == jar_of(cookies).insert(cookie.name@, cookie@),
{
    let grown = cookies.push(cookie);
    assert forall|i: int, j: int| 0 <= i < j < grown.len() implies (#[trigger] grown[i]).name@ != (
    #[trigger] grown[j]).name@ by {
        if j == cookies.len() {
            assert(grown[i] == cookies[i]);
            assert(cookies[i].name@ != cookie.name@);
        } else {
            assert(grown[i] == cookies[i] && grown[j] == cookies[j]);
        }
    }
    let last = cookies.len() as int;
    assert(grown[last] == cookie);
    lemma_jar_holds_each(grown, last);
    assert forall|name: Seq<char>| has_name(grown, name) <==> (name == cookie.name@ || has_name(
        cookies,
        name,
    )) by {
        if has_name(grown, name) {
            let k = place_of(grown, name);
            if k < cookies.len() {
                assert(grown[k] == cookies[k]);
            }
        }
        if has_name(cookies, name) {
            let k = place_of(cookies, name);
            assert(grown[k] == cookies[k]);
        }
    }
    assert forall|name: Seq<char>| has_name(cookies, name) && name != cookie.name@ implies jar_of(
        grown,
    )[name] == jar_of(cookies)[name] by {
        let k = place_of(cookies, name);
        assert(grown[k] == cookies[k]);
        lemma_jar_holds_each(grown, k);
    }
    assert(jar_of(grown) =~= jar_of(cookies).insert(cookie.name@, cookie@));
}

/// Taking a cookie out of a list without repeated names removes its name
/// from the map.
proof fn lemma_jar_remove(cookies: Seq<Cookie>, i: int)
    requires
        distinct_names(cookies),
        0 <= i < cookies.len(),
    ensures
        distinct_names(cookies.remove(i)),
        !has_name(cookies.remove(i), cookies[i].name@),
        jar_of(cookies.remove(i)) == jar_of(cookies).remove(cookies[i].name@),
{
    let rest = cookies.remove(i);
    let gone = cookies[i].name@;
    assert forall|k: int| 0 <= k < rest.len() implies #[trigger] rest[k] == cookies[if k < i {
        k
    } else {
        k + 1
    }] by {}
    assert forall|a: int, b: int| 0 <= a < b < rest.len() implies (#[trigger] rest[a]).name@ != (
    #[trigger] rest[b]).name@ by {
        let a0 = if a < i { a } else { a + 1 };
        let b0 = if b < i { b } else { b + 1 };
        assert(rest[a] == cookies[a0] && rest[b] == cookies[b0]);
    }
    assert forall|k: int| 0 <= k < rest.len() implies (#[trigger] rest[k]).name@ != gone by {
        let k0 = if k < i { k } else { k + 1 };
        assert(rest[k] == cookies[k0]);
    }
    assert forall|name: Seq<char>| has_name(rest, name) <==> (name != gone && has_name(
        cookies,
        name,
    )) by {
        if has_name(rest, name) {
            let k = place_of(rest, name);
            let k0 = if k < i { k } else { k + 1 };
            assert(rest[k] == cookies[k0]);
        }
        if name != gone && has_name(cookies, name) {
            let k0 = place_of(cookies, name);
            let k = if k0 < i { k0 } else { k0 - 1 };
            assert(rest[k] == cookies[k0]);
        }
    }
    assert forall|name: Seq<char>| has_name(rest, name) implies jar_of(rest)[name] == jar_of(
        cookies,
    )[name] by {
        let k = place_of(rest, name);
        let k0 = if k < i { k } else { k + 1 };
        assert(rest[k] == cookies[k0]);
        lemma_jar_holds_each(cookies, k0);
    }
    assert(jar_of(rest) =~= jar_of(cookies).remove(gone));
}

/// Finds the cookie with the given name.
fn find(cookies: &Vec<Cookie>, name: &str) -> (place: Option<usize>)
    ensures
        match place {
            Some(i) => i < cookies@.len() && cookies@[i as int].name@ == name@,
            None => !has_name(cookies@, name@),
        },
{
    let mut i: usize = 0;
    while i < cookies.len()
        invariant
            i <= cookies@.len(),
            forall|k: int| 0 <= k < i ==> (#[trigger] cookies@[k]).name@ != name@,
        decreases cookies@.len() - i,
    {
        if str_eq(cookies[i].name.as_str(), name) {
            return Some(i);
        }
        i += 1;
    }
    None
}

/// The value that a store with the given contents holds under a name, if
/// it holds one.
pub open spec fn stored_value(contents: Map<Seq<char>, CookieView>, name: Seq<char>) -> Option<
    Seq<char>,
> {
    if contents.contains_key(name) {
        Some(contents[name].value)
    } else {
        None
    }
}

/// A key/value store of named cookies.
pub struct SessionStore {
    cookies: Vec<Cookie>,
}

impl View for SessionStore {
    type V = Map<Seq<char>, CookieView>;

    closed spec fn view(&self) -> Map<Seq<char>, CookieView> {
        jar_of(self.cookies@)
    }
}

impl SessionStore {
    #[verifier::type_invariant]
    spec fn well_formed(self) -> bool {
        distinct_names(self.cookies@)
    }

    /// The value stored under a name, if there is one.
    pub open spec fn value_of(&self, name: Seq<char>) -> Option<Seq<char>> {
        stored_value(self@, name)
    }

    /// A store that holds nothing.
    pub fn new() -> (store: SessionStore)
        ensures
            store@ == Map::<Seq<char>, CookieView>::empty(),
    {
        let store = SessionStore { cookies: Vec::new() };
        assert(store@ =~= Map::<Seq<char>, CookieView>::empty());
        store
    }
}

/// The same optional text as a mathematical value.
pub open spec fn text_view(text: Option<String>) -> Option<Seq<char>> {
    match text {
        Some(chars) => Some(chars@),
        None => None,
    }
}

/// Reads the value stored under `name`.
pub fn get_cookie(store: &SessionStore, name: &str) -> (value: Option<String>)
    ensures
        text_view(value) == store.value_of(name@),
{
    proof {
        use_type_invariant(store);
    }
    match find(&store.cookies, name) {
        Some(i) => {
            proof {
                lemma_jar_holds_each(store.cookies@, i as int);
            }
            Some(store.cookies[i].value.clone())
        },
        None => None,
    }
}

/// Stores `value` under `name`, with the path `/`, in place of whatever was
/// stored under that name. Other names are not touched.
pub fn set_cookie(store: &mut SessionStore, name: &str, value: String)
    ensures
        final(store)@ == old(store)@.insert(
            name@,
            CookieView { value: value@, path: cookie_path() },
        ),
{
    proof {
        use_type_invariant(&*store);
    }
    let cookie = Cookie { name: String::from_str(name), value, path: "/" };
    let mut cookies: Vec<Cookie> = Vec::new();
    std::mem::swap(&mut store.cookies, &mut cookies);
    match find(&cookies, name) {
        Some(i) => {
            proof {
                lemma_jar_remove(cookies@, i as int);
                lemma_jar_push(cookies@.remove(i as int), cookie);
            }
            cookies.remove(i);
        },
        None => {
            proof {
                lemma_jar_push(cookies@, cookie);
            }
        },
    }
    cookies.push(cookie);
    store.cookies = cookies;
    assert(store@ =~= old(store)@.insert(name@, cookie@));
}

/// Removes whatever is stored under `name`. Other names are not touched;
/// removing a name that is not stored changes nothing.
pub fn delete_cookie(store: &mut SessionStore, name: &str)
    ensures
        final(store)@ == old(store)@.remove(name@),
{
    proof {
        use_type_invariant(&*store);
    }
    let mut cookies: Vec<Cookie> = Vec::new();
    std::mem::swap(&mut store.cookies, &mut cookies);
    match find(&cookies, name) {
        Some(i) => {
            proof {
                lemma_jar_remove(cookies@, i as int);
            }
            cookies.remove(i);
        },
        None => {},
    }
    store.cookies = cookies;
    assert(store@ =~= old(store)@.remove(name@));
}

/// What was stored last under a name is what is read under it.
pub proof fn lemma_set_then_get(
    contents: Map<Seq<char>, CookieView>,
    name: Seq<char>,
    cookie: CookieView,
)
    ensures
        stored_value(contents.insert(name, cookie), name) == Some(cookie.value),
{
}

/// Nothing is read under a name that was deleted.
pub proof fn lemma_delete_then_get(contents: Map<Seq<char>, CookieView>, name: Seq<char>)
    ensures
        stored_value(contents.remove(name), name) is None,
{
}

/// Storing or deleting under one name does not change what is read under
/// another.
pub proof fn lemma_other_names_untouched(
    contents: Map<Seq<char>, CookieView>,
    name: Seq<char>,
    cookie: CookieView,
    other: Seq<char>,
)
    requires
        other != name,
    ensures
        stored_value(contents.insert(name, cookie), other) == stored_value(contents, other),
        stored_value(contents.remove(name), other) == stored_value(contents, other),
{
}

} // verus!
