//! Ordered lists of request parameters and their form serialization.

use vstd::prelude::*;
use vstd::string::*;

use crate::text::{
    ascii_chars, decimal, decimal_string, form_escape, is_ascii_bytes, lemma_form_escape_ascii,
    push_form_escaped,
};

verus! {

/// A parameter as the characters of its key and of its value.
pub type ParamView = (Seq<char>, Seq<char>);

/// The single pair `(key, value)` when a value is present.
pub open spec fn opt_pair(key: Seq<char>, value: Option<Seq<char>>) -> Seq<ParamView> {
    match value {
        Some(v) => seq![(key, v)],
        None => seq![],
    }
}

/// The characters of an optional string.
pub open spec fn opt_text(value: Option<String>) -> Option<Seq<char>> {
    match value {
        Some(v) => Some(v@),
        None => None,
    }
}

/// How a boolean parameter is written.
pub open spec fn bool_text(b: bool) -> Seq<char> {
    if b {
        "true"@
    } else {
        "false"@
    }
}

/// How an integer parameter is written.
pub open spec fn u64_text(n: u64) -> Seq<char> {
    ascii_chars(decimal(n as nat))
}

/// Values which may be sent as parameters.
pub trait ParamValue {
    /// How the value is written as a parameter.
    spec fn spec_value(&self) -> Seq<char>;

    fn as_value(&self) -> (r: String)
        ensures
            r@ == self.spec_value(),
    ;
}

/// How an optional value is written, when it is present.
pub open spec fn opt_value<V: ParamValue>(value: Option<V>) -> Option<Seq<char>> {
    match value {
        Some(v) => Some(v.spec_value()),
        None => None,
    }
}

impl ParamValue for bool {
    open spec fn spec_value(&self) -> Seq<char> {
        bool_text(*self)
    }

    fn as_value(&self) -> (r: String) {
        if *self {
            "true".to_owned()
        } else {
            "false".to_owned()
        }
    }
}

impl ParamValue for u64 {
    open spec fn spec_value(&self) -> Seq<char> {
        u64_text(*self)
    }

    fn as_value(&self) -> (r: String) {
        decimal_string(*self)
    }
}

impl ParamValue for String {
    open spec fn spec_value(&self) -> Seq<char> {
        self@
    }

    fn as_value(&self) -> (r: String) {
        self.clone()
    }
}

/// `key=value` with both sides form-serialized.
pub open spec fn form_pair(p: ParamView) -> Seq<u8> {
    form_escape(vstd::utf8::encode_utf8(p.0)) + seq![0x3du8] + form_escape(
        vstd::utf8::encode_utf8(p.1),
    )
}

/// The `application/x-www-form-urlencoded` body for a list of parameters:
/// the serialized pairs, in order, separated by `&`.
pub open spec fn form_body(ps: Seq<ParamView>) -> Seq<u8>
    decreases ps.len(),
{
    if ps.len() == 0 {
        seq![]
    } else if ps.len() == 1 {
        form_pair(ps[0])
    } else {
        form_body(ps.drop_last()) + seq![0x26u8] + form_pair(ps.last())
    }
}

/// An ordered list of parameters; the same key may appear more than once.
#[derive(Debug, Clone)]
pub struct Params {
    pairs: Vec<(String, String)>,
}

impl View for Params {
    type V = Seq<ParamView>;

    closed spec fn view(&self) -> Seq<ParamView> {
        self.pairs@.map_values(|p: (String, String)| (p.0@, p.1@))
    }
}

impl Params {
    /// An empty list of parameters.
    pub fn new() -> (r: Params)
        ensures
            r@ == Seq::<ParamView>::empty(),
    {
        let r = Params { pairs: Vec::new() };
        assert(r@ =~= Seq::<ParamView>::empty());
        r
    }

    /// The number of parameters.
    pub fn len(&self) -> (r: usize)
        ensures
            r == self@.len(),
    {
        self.pairs.len()
    }

    /// The key of the parameter at `i`.
    pub fn key(&self, i: usize) -> (r: &String)
        requires
            i < self@.len(),
        ensures
            r@ == self@[i as int].0,
    {
        &self.pairs[i].0
    }

    /// The value of the parameter at `i`.
    pub fn value(&self, i: usize) -> (r: &String)
        requires
            i < self@.len(),
        ensures
            r@ == self@[i as int].1,
    {
        &self.pairs[i].1
    }

    /// Add a parameter with an owned value.
    pub fn push_string(&mut self, key: &str, value: String)
        ensures
            final(self)@ == old(self)@.push((key@, value@)),
    {
        let k = key.to_owned();
        self.pairs.push((k, value));
        assert(self@ =~= old(self)@.push((key@, value@)));
    }

    /// Add a parameter.
    pub fn push_str(&mut self, key: &str, value: &str)
        ensures
            final(self)@ == old(self)@.push((key@, value@)),
    {
        self.push_string(key, value.to_owned());
    }

    /// Add a parameter.
    pub fn push<V: ParamValue>(&mut self, key: &str, value: &V)
        ensures
            final(self)@ == old(self)@.push((key@, value.spec_value())),
    {
        self.push_string(key, value.as_value());
    }

    /// Add a parameter if its value is present.
    pub fn push_opt<V: ParamValue>(&mut self, key: &str, value: &Option<V>)
        ensures
            final(self)@ == old(self)@ + opt_pair(key@, opt_value(*value)),
    {
        match value {
            Some(v) => {
                self.push(key, v);
            },
            None => {},
        }
        assert(self@ =~= old(self)@ + opt_pair(key@, opt_value(*value)));
    }

    /// A copy of the parameters.
    pub fn duplicate(&self) -> (r: Params)
        ensures
            r@ == self@,
    {
        let mut r = Params::new();
        let mut i: usize = 0;
        while i < self.pairs.len()
            invariant
                i <= self.pairs@.len(),
                r@ =~= self@.take(i as int),
            decreases self.pairs@.len() - i,
        {
            r.push_str(self.pairs[i].0.as_str(), self.pairs[i].1.as_str());
            i = i + 1;
        }
        assert(self@.take(self@.len() as int) =~= self@);
        r
    }

    /// The `application/x-www-form-urlencoded` serialization of the parameters.
    pub fn form_body(&self) -> (r: Vec<u8>)
        ensures
            r@ == form_body(self@),
    {
        let mut out: Vec<u8> = Vec::new();
        let mut i: usize = 0;
        assert(self@.take(0) =~= Seq::<ParamView>::empty());
        while i < self.pairs.len()
            invariant
                i <= self@.len(),
                self@.len() == self.pairs@.len(),
                out@ == form_body(self@.take(i as int)),
            decreases self@.len() - i,
        {
            let ghost before = out@;
            if i > 0 {
                out.push(0x26);
            }
            let k = &self.pairs[i].0;
            let v = &self.pairs[i].1;
            push_form_escaped(&mut out, k.as_str().as_bytes());
            out.push(0x3d);
            push_form_escaped(&mut out, v.as_str().as_bytes());
            proof {
                let t = self@.take(i + 1);
                assert(t.drop_last() =~= self@.take(i as int));
                assert(t.last() == self@[i as int]);
                if i == 0 {
                    assert(out@ =~= form_pair(t[0]));
                } else {
                    assert(out@ =~= before + seq![0x26u8] + form_pair(t.last()));
                }
            }
            i = i + 1;
        }
        assert(self@.take(self@.len() as int) =~= self@);
        out
    }
}

/// The content type of form bodies.
pub fn form_content_type() -> (r: &'static str)
    ensures
        r@ == "application/x-www-form-urlencoded"@,
{
    "application/x-www-form-urlencoded"
}

/// A form body is made of ASCII characters.
pub proof fn lemma_form_body_ascii(ps: Seq<ParamView>)
    ensures
        is_ascii_bytes(form_body(ps)),
    decreases ps.len(),
{
    if ps.len() > 0 {
        let p = ps.last();
        lemma_form_escape_ascii(vstd::utf8::encode_utf8(p.0));
        lemma_form_escape_ascii(vstd::utf8::encode_utf8(p.1));
        let a = form_escape(vstd::utf8::encode_utf8(p.0));
        let b = form_escape(vstd::utf8::encode_utf8(p.1));
        assert forall|i: int| 0 <= i < form_pair(p).len() implies form_pair(p)[i] < 128 by {
            if i < a.len() {
                assert(form_pair(p)[i] == a[i]);
            } else if i > a.len() {
                assert(form_pair(p)[i] == b[i - a.len() - 1]);
            }
        }
        if ps.len() > 1 {
            lemma_form_body_ascii(ps.drop_last());
            let l = form_body(ps.drop_last());
            let whole = l + seq![0x26u8] + form_pair(p);
            assert forall|i: int| 0 <= i < whole.len() implies whole[i] < 128 by {
                if i < l.len() {
                    assert(whole[i] == l[i]);
                } else if i > l.len() {
                    assert(whole[i] == form_pair(p)[i - l.len() - 1]);
                }
            }
        }
    }
}


/// The values of the parameters named `key`, in order.
pub open spec fn values_of(ps: Seq<ParamView>, key: Seq<char>) -> Seq<Seq<char>>
    decreases ps.len(),
{
    if ps.len() == 0 {
        Seq::empty()
    } else {
        values_of(ps.drop_last(), key) + if ps.last().0 == key {
            seq![ps.last().1]
        } else {
            Seq::empty()
        }
    }
}

/// The parameters named `key` of two lists one after the other are those of
/// the first list, then those of the second.
pub proof fn lemma_values_of_concat(a: Seq<ParamView>, b: Seq<ParamView>, key: Seq<char>)
    ensures
        values_of(a + b, key) == values_of(a, key) + values_of(b, key),
    decreases b.len(),
{
    if b.len() == 0 {
        assert(a + b =~= a);
        assert(values_of(b, key) =~= Seq::<Seq<char>>::empty());
        assert(values_of(a, key) + values_of(b, key) =~= values_of(a, key));
    } else {
        lemma_values_of_concat(a, b.drop_last(), key);
        assert((a + b).drop_last() =~= a + b.drop_last());
        assert((a + b).last() == b.last());
        assert(values_of(a, key) + values_of(b.drop_last(), key) + (if b.last().0 == key {
            seq![b.last().1]
        } else {
            Seq::empty()
        }) =~= values_of(a, key) + (values_of(b.drop_last(), key) + (if b.last().0 == key {
            seq![b.last().1]
        } else {
            Seq::empty()
        })));
    }
}

/// A single parameter is named `key` or it is not.
pub proof fn lemma_values_of_single(k: Seq<char>, v: Seq<char>, key: Seq<char>)
    ensures
        values_of(seq![(k, v)], key) == if k == key {
            seq![v]
        } else {
            Seq::<Seq<char>>::empty()
        },
{
    assert(seq![(k, v)].drop_last() =~= Seq::<ParamView>::empty());
    assert(seq![(k, v)].last() == (k, v));
    assert(values_of(Seq::<ParamView>::empty(), key) =~= Seq::<Seq<char>>::empty());
    if k == key {
        assert(Seq::<Seq<char>>::empty() + seq![v] =~= seq![v]);
    } else {
        assert(Seq::<Seq<char>>::empty() + Seq::<Seq<char>>::empty() =~= Seq::<Seq<char>>::empty());
    }
}

/// An optional parameter gives its value when it is present and named `key`.
pub proof fn lemma_values_of_opt_pair(k: Seq<char>, v: Option<Seq<char>>, key: Seq<char>)
    ensures
        values_of(opt_pair(k, v), key) == match v {
            Some(x) => if k == key {
                seq![x]
            } else {
                Seq::<Seq<char>>::empty()
            },
            None => Seq::<Seq<char>>::empty(),
        },
{
    match v {
        Some(x) => lemma_values_of_single(k, x, key),
        None => {
            assert(values_of(Seq::<ParamView>::empty(), key) =~= Seq::<Seq<char>>::empty());
        },
    }
}

} // verus!
