//! Argument lists of fixed length.

use vstd::prelude::*;
use vstd::string::*;

verus! {

pub fn argv0() -> (v: Vec<String>)
    ensures
        v.deep_view() == Seq::<Seq<char>>::empty(),
{
    let v: Vec<String> = Vec::new();
    assert(v.deep_view() =~= Seq::<Seq<char>>::empty());
    v
}

pub fn argv1(a: &str) -> (v: Vec<String>)
    ensures
        v.deep_view() == seq![a@],
{
    let mut v: Vec<String> = Vec::new();
    v.push(String::from_str(a));
    assert(v.deep_view() =~= seq![a@]);
    v
}

pub fn argv2(a: &str, b: &str) -> (v: Vec<String>)
    ensures
        v.deep_view() == seq![a@, b@],
{
    let mut v: Vec<String> = Vec::new();
    v.push(String::from_str(a));
    v.push(String::from_str(b));
    assert(v.deep_view() =~= seq![a@, b@]);
    v
}

pub fn argv3(a: &str, b: &str, c: &str) -> (v: Vec<String>)
    ensures
        v.deep_view() == seq![a@, b@, c@],
{
    let mut v: Vec<String> = Vec::new();
    v.push(String::from_str(a));
    v.push(String::from_str(b));
    v.push(String::from_str(c));
    assert(v.deep_view() =~= seq![a@, b@, c@]);
    v
}

pub fn argv4(a: &str, b: &str, c: &str, d: &str) -> (v: Vec<String>)
    ensures
        v.deep_view() == seq![a@, b@, c@, d@],
{
    let mut v: Vec<String> = Vec::new();
    v.push(String::from_str(a));
    v.push(String::from_str(b));
    v.push(String::from_str(c));
    v.push(String::from_str(d));
    assert(v.deep_view() =~= seq![a@, b@, c@, d@]);
    v
}

pub fn argv5(a: &str, b: &str, c: &str, d: &str, e: &str) -> (v: Vec<String>)
    ensures
        v.deep_view() == seq![a@, b@, c@, d@, e@],
{
    let mut v: Vec<String> = Vec::new();
    v.push(String::from_str(a));
    v.push(String::from_str(b));
    v.push(String::from_str(c));
    v.push(String::from_str(d));
    v.push(String::from_str(e));
    assert(v.deep_view() =~= seq![a@, b@, c@, d@, e@]);
    v
}

pub fn argv6(a: &str, b: &str, c: &str, d: &str, e: &str, f: &str) -> (v: Vec<String>)
    ensures
        v.deep_view() == seq![a@, b@, c@, d@, e@, f@],
{
    let mut v: Vec<String> = Vec::new();
    v.push(String::from_str(a));
    v.push(String::from_str(b));
    v.push(String::from_str(c));
    v.push(String::from_str(d));
    v.push(String::from_str(e));
    v.push(String::from_str(f));
    assert(v.deep_view() =~= seq![a@, b@, c@, d@, e@, f@]);
    v
}

pub fn argv7(a: &str, b: &str, c: &str, d: &str, e: &str, f: &str, g: &str) -> (v: Vec<String>)
    ensures
        v.deep_view() == seq![a@, b@, c@, d@, e@, f@, g@],
{
    let mut v: Vec<String> = Vec::new();
    v.push(String::from_str(a));
    v.push(String::from_str(b));
    v.push(String::from_str(c));
    v.push(String::from_str(d));
    v.push(String::from_str(e));
    v.push(String::from_str(f));
    v.push(String::from_str(g));
    assert(v.deep_view() =~= seq![a@, b@, c@, d@, e@, f@, g@]);
    v
}

pub fn argv8(a: &str, b: &str, c: &str, d: &str, e: &str, f: &str, g: &str, h: &str) -> (v: Vec<String>)
    ensures
        v.deep_view() == seq![a@, b@, c@, d@, e@, f@, g@, h@],
{
    let mut v: Vec<String> = Vec::new();
    v.push(String::from_str(a));
    v.push(String::from_str(b));
    v.push(String::from_str(c));
    v.push(String::from_str(d));
    v.push(String::from_str(e));
    v.push(String::from_str(f));
    v.push(String::from_str(g));
    v.push(String::from_str(h));
    assert(v.deep_view() =~= seq![a@, b@, c@, d@, e@, f@, g@, h@]);
    v
}

pub fn argv9(a: &str, b: &str, c: &str, d: &str, e: &str, f: &str, g: &str, h: &str, i: &str) -> (v: Vec<String>)
    ensures
        v.deep_view() == seq![a@, b@, c@, d@, e@, f@, g@, h@, i@],
{
    let mut v: Vec<String> = Vec::new();
    v.push(String::from_str(a));
    v.push(String::from_str(b));
    v.push(String::from_str(c));
    v.push(String::from_str(d));
    v.push(String::from_str(e));
    v.push(String::from_str(f));
    v.push(String::from_str(g));
    v.push(String::from_str(h));
    v.push(String::from_str(i));
    assert(v.deep_view() =~= seq![a@, b@, c@, d@, e@, f@, g@, h@, i@]);
    v
}

pub fn argv10(
    a: &str,
    b: &str,
    c: &str,
    d: &str,
    e: &str,
    f: &str,
    g: &str,
    h: &str,
    i: &str,
    j: &str,
) -> (v: Vec<String>)
    ensures
        v.deep_view() == seq![a@, b@, c@, d@, e@, f@, g@, h@, i@, j@],
{
    let mut v: Vec<String> = Vec::new();
    v.push(String::from_str(a));
    v.push(String::from_str(b));
    v.push(String::from_str(c));
    v.push(String::from_str(d));
    v.push(String::from_str(e));
    v.push(String::from_str(f));
    v.push(String::from_str(g));
    v.push(String::from_str(h));
    v.push(String::from_str(i));
    v.push(String::from_str(j));
    assert(v.deep_view() =~= seq![a@, b@, c@, d@, e@, f@, g@, h@, i@, j@]);
    v
}

pub fn argv11(
    a: &str,
    b: &str,
    c: &str,
    d: &str,
    e: &str,
    f: &str,
    g: &str,
    h: &str,
    i: &str,
    j: &str,
    k: &str,
) -> (v: Vec<String>)
    ensures
        v.deep_view() == seq![a@, b@, c@, d@, e@, f@, g@, h@, i@, j@, k@],
{
    let mut v: Vec<String> = Vec::new();
    v.push(String::from_str(a));
    v.push(String::from_str(b));
    v.push(String::from_str(c));
    v.push(String::from_str(d));
    v.push(String::from_str(e));
    v.push(String::from_str(f));
    v.push(String::from_str(g));
    v.push(String::from_str(h));
    v.push(String::from_str(i));
    v.push(String::from_str(j));
    v.push(String::from_str(k));
    assert(v.deep_view() =~= seq![a@, b@, c@, d@, e@, f@, g@, h@, i@, j@, k@]);
    v
}

} // verus!
