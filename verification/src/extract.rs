use vstd::prelude::*;

verus! {

/// The `options` attribute values of the `rps-play-with-labels` elements of
/// an HTML document, in document order; elements without the attribute
/// contribute nothing.
pub uninterp spec fn options_attrs(html: Seq<char>) -> Seq<Seq<char>>;

/// The string value at `key` in the JSON document `doc`:
/// `Err` when `doc` is not well-formed JSON; `Ok(None)` when `doc` is not an
/// object or has no entry at `key`; `Ok(Some(None))` when the entry is not a
/// string; `Ok(Some(Some(s)))` when it is the string `s`.
pub uninterp spec fn json_string_key(doc: Seq<char>, key: Seq<char>) -> Result<
    Option<Option<Seq<char>>>,
    (),
>;

pub open spec fn string_lookup_view(r: Result<Option<Option<String>>, ()>) -> Result<
    Option<Option<Seq<char>>>,
    (),
> {
    match r {
        Ok(Some(Some(s))) => Ok(Some(Some(s@))),
        Ok(Some(None)) => Ok(Some(None)),
        Ok(None) => Ok(None),
        Err(e) => Err(e),
    }
}

/// Relies on scraper::Html::parse_document, scraper::Selector::parse,
/// scraper::Html::select and scraper::ElementRef::attr: parses the document,
/// selects every `rps-play-with-labels` element and hands out its `options`
/// attribute values in document order, skipping elements without one. The
/// fixed selector is a valid one, so `Selector::parse` succeeds, and the
/// result depends on the document characters alone.
#[verifier::external_body]
fn play_with_labels_options(html: &str) -> (r: Vec<String>)
    ensures
        r.deep_view() == options_attrs(html@),
{
    let document = scraper::Html::parse_document(html);
    let selector = scraper::Selector::parse("rps-play-with-labels").unwrap();
    document
        .select(&selector)
        .filter_map(|element| element.attr("options").map(str::to_string))
        .collect()
}

/// Relies on serde_json::from_str, serde_json::Value::get and
/// serde_json::Value::as_str: parses `doc` as JSON and looks `key` up in it.
/// `Err` means malformed JSON; `Ok(None)` that the document is not an object
/// or has no entry at `key`; `Ok(Some(None))` that the entry is not a
/// string. The result depends on the arguments alone.
#[verifier::external_body]
fn json_string_at_key(doc: &str, key: &str) -> (r: Result<Option<Option<String>>, ()>)
    ensures
        string_lookup_view(r) == json_string_key(doc@, key@),
{
    match serde_json::from_str::<serde_json::Value>(doc) {
        Err(_) => Err(()),
        Ok(value) => Ok(value.get(key).map(|v| v.as_str().map(str::to_string))),
    }
}

/// The episode references carried by a sequence of `options` attribute
/// values: the string at `key` of each, in order; attributes without the
/// key are skipped; an attribute that is not well-formed JSON, or whose
/// entry at `key` is not a string, fails the whole extraction.
pub open spec fn extracted_refs(attrs: Seq<Seq<char>>, key: Seq<char>) -> Result<Seq<Seq<char>>, ()>
    decreases attrs.len(),
{
    if attrs.len() == 0 {
        Ok(Seq::empty())
    } else {
        match (json_string_key(attrs.first(), key), extracted_refs(attrs.drop_first(), key)) {
            (Ok(Some(Some(u))), Ok(rest)) => Ok(seq![u] + rest),
            (Ok(None), Ok(rest)) => Ok(rest),
            (_, _) => Err(()),
        }
    }
}

pub open spec fn combine(done: Seq<Seq<char>>, rest: Result<Seq<Seq<char>>, ()>) -> Result<
    Seq<Seq<char>>,
    (),
> {
    match rest {
        Ok(r) => Ok(done + r),
        Err(e) => Err(e),
    }
}

proof fn lemma_combine_step(attrs: Seq<Seq<char>>, key: Seq<char>, done: Seq<Seq<char>>, i: int)
    requires
        0 <= i < attrs.len(),
    ensures
        combine(done, extracted_refs(attrs.skip(i), key)) == (match json_string_key(
            attrs[i],
            key,
        ) {
            Ok(Some(Some(u))) => combine(done.push(u), extracted_refs(attrs.skip(i + 1), key)),
            Ok(None) => combine(done, extracted_refs(attrs.skip(i + 1), key)),
            _ => Err::<Seq<Seq<char>>, ()>(()),
        }),
{
    let tail = attrs.skip(i);
    assert(tail.len() > 0);
    assert(tail.first() == attrs[i]);
    assert(tail.drop_first() =~= attrs.skip(i + 1));
    match json_string_key(attrs[i], key) {
        Ok(Some(Some(u))) => {
            match extracted_refs(attrs.skip(i + 1), key) {
                Ok(rest) => {
                    assert(done + (seq![u] + rest) =~= done.push(u) + rest);
                },
                Err(_) => {},
            }
        },
        _ => {},
    }
}

/// Extracts the ordered episode references of a catalog page: the `url`
/// string of the JSON object held in the `options` attribute of each
/// `rps-play-with-labels` element, in document order, duplicates kept.
/// Elements without an `options` attribute or without a `url` entry are
/// skipped. `None` when some `options` attribute is not well-formed JSON or
/// its `url` entry is not a string: that fails the whole extraction.
pub fn extract_options(html: &str) -> (r: Option<Vec<String>>)
    ensures
        r is Some <==> extracted_refs(options_attrs(html@), "url"@) is Ok,
        r matches Some(v) ==> Ok::<_, ()>(v.deep_view()) == extracted_refs(
            options_attrs(html@),
            "url"@,
        ),
{
    let attrs = play_with_labels_options(html);
    let ghost whole = extracted_refs(options_attrs(html@), "url"@);
    let mut out: Vec<String> = Vec::new();
    let mut i: usize = 0;
    proof {
        assert(attrs.deep_view().skip(0) =~= attrs.deep_view());
        assert(out.deep_view() + attrs.deep_view() =~= attrs.deep_view());
    }
    while i < attrs.len()
        invariant
            i <= attrs.len(),
            attrs.deep_view() == options_attrs(html@),
            whole == extracted_refs(options_attrs(html@), "url"@),
            whole == combine(out.deep_view(), extracted_refs(attrs.deep_view().skip(i as int), "url"@)),
        decreases attrs.len() - i,
    {
        proof {
            lemma_combine_step(attrs.deep_view(), "url"@, out.deep_view(), i as int);
            assert(attrs.deep_view()[i as int] == attrs@[i as int]@);
        }
        match json_string_at_key(attrs[i].as_str(), "url") {
            Ok(Some(Some(u))) => {
                let ghost old_out = out.deep_view();
                let ghost uv = u@;
                out.push(u);
                proof {
                    assert(out.deep_view() =~= old_out.push(uv));
                }
            },
            Ok(None) => {},
            _ => {
                return None;
            },
        }
        i += 1;
    }
    proof {
        assert(attrs.deep_view().skip(i as int) =~= Seq::<Seq<char>>::empty());
        assert(out.deep_view() + Seq::<Seq<char>>::empty() =~= out.deep_view());
    }
    Some(out)
}

} // verus!
