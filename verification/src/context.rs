//! Informational attachments (contexts) for trigger events.

use vstd::prelude::*;

use crate::json::{
    has_key, lemma_str_entries_push, lemma_wrap_close_arr, lemma_wrap_close_obj, lemma_wrap_open,
    lemma_wrap_step, obj_text, push_quoted, str_entries_text, str_entry_text,
};

verus! {

/// Spec-level value of an attachment: exactly the two well-formed shapes.
pub enum CtxView {
    Image { src: Seq<char>, href: Option<Seq<char>>, alt: Option<Seq<char>> },
    Link { href: Seq<char>, text: Option<Seq<char>> },
}

/// An informational asset attached to the incident.
///
/// An attachment is a union of two shapes. An image must have a `src` and may
/// optionally have `href` and `alt`; a link must have an `href` and may
/// optionally have `text`. Modelling the union as a tagged variant removes
/// the possibility of an invalid field combination entirely.
#[derive(Debug)]
pub enum Context {
    Image { src: String, href: Option<String>, alt: Option<String> },
    Link { href: String, text: Option<String> },
}

/// The view of an optional string field.
pub open spec fn opt_view(o: Option<String>) -> Option<Seq<char>> {
    match o {
        Some(s) => Some(s@),
        None => None,
    }
}

impl View for Context {
    type V = CtxView;

    open spec fn view(&self) -> CtxView {
        match self {
            Context::Image { src, href, alt } => CtxView::Image {
                src: src@,
                href: opt_view(*href),
                alt: opt_view(*alt),
            },
            Context::Link { href, text } => CtxView::Link {
                href: href@,
                text: opt_view(*text),
            },
        }
    }
}

/// The ordered key/value entries of an attachment's serialized object.
///
/// Optional fields left unset contribute no entry at all.
pub open spec fn ctx_entries(c: CtxView) -> Seq<(Seq<char>, Seq<char>)> {
    match c {
        CtxView::Image { src, href, alt } => {
            let base = seq![("type"@, "image"@), ("src"@, src)];
            let with_href = if href is Some {
                base.push(("href"@, href->0))
            } else {
                base
            };
            if alt is Some {
                with_href.push(("alt"@, alt->0))
            } else {
                with_href
            }
        },
        CtxView::Link { href, text } => {
            let base = seq![("type"@, "link"@), ("href"@, href)];
            if text is Some {
                base.push(("text"@, text->0))
            } else {
                base
            }
        },
    }
}

/// The serialized text of one attachment object.
pub open spec fn ctx_text(c: CtxView) -> Seq<char> {
    obj_text(str_entries_text(ctx_entries(c)))
}

impl Context {
    /// Create a `link` attachment with the given target and display text.
    pub fn link(href: &str, text: &str) -> (r: Context)
        ensures
            r@ == (CtxView::Link { href: href@, text: Some(text@) }),
    {
        Context::Link { href: href.to_owned(), text: Some(text.to_owned()) }
    }

    /// Create an `image` attachment with the given source and optional link
    /// and alternative text.
    pub fn image(src: &str, href: Option<&str>, alt: Option<&str>) -> (r: Context)
        ensures
            r@ == (CtxView::Image {
                src: src@,
                href: match href {
                    Some(h) => Some(h@),
                    None => None,
                },
                alt: match alt {
                    Some(a) => Some(a@),
                    None => None,
                },
            }),
    {
        let href_owned: Option<String> = match href {
            Some(h) => Some(h.to_owned()),
            None => None,
        };
        let alt_owned: Option<String> = match alt {
            Some(a) => Some(a.to_owned()),
            None => None,
        };
        Context::Image { src: src.to_owned(), href: href_owned, alt: alt_owned }
    }

    /// Serialize this attachment to its JSON object text.
    pub fn to_json(&self) -> (r: String)
        ensures
            r@ == ctx_text(self@),
    {
        let mut out = String::new();
        push_ctx(&mut out, self);
        proof {
            assert(out@ =~= ctx_text(self@));
        }
        out
    }
}

/// Append one rendered entry whose key and value are both JSON string
/// tokens.
fn push_str_kv(out: &mut String, key: &str, val: &str)
    ensures
        final(out)@ == old(out)@ + str_entry_text((key@, val@)),
{
    push_quoted(out, key);
    out.push(':');
    push_quoted(out, val);
    proof {
        assert(out@ =~= old(out)@ + str_entry_text((key@, val@)));
    }
}

/// Append the serialized object text of one attachment.
pub(crate) fn push_ctx(out: &mut String, c: &Context)
    ensures
        final(out)@ == old(out)@ + ctx_text(c@),
{
    let ghost start = out@;
    out.push('{');
    let ghost mut es: Seq<(Seq<char>, Seq<char>)>;
    match c {
        Context::Image { src, href, alt } => {
            push_str_kv(out, "type", "image");
            proof {
                es = seq![("type"@, "image"@)];
                assert(str_entries_text(es) == str_entry_text(es[0]));
                lemma_wrap_open(start, '{', str_entry_text(("type"@, "image"@)));
                assert(out@ == start + seq!['{'] + str_entries_text(es));
            }
            let ghost prev = out@;
            let ghost inner = str_entries_text(es);
            out.push(',');
            push_str_kv(out, "src", src.as_str());
            proof {
                let e = ("src"@, src@);
                lemma_str_entries_push(es, e);
                lemma_wrap_step(start, prev, inner, str_entry_text(e), '{');
                es = es.push(e);
                assert(out@ == start + seq!['{'] + str_entries_text(es));
            }
            if let Some(h) = href {
                let ghost prev = out@;
                let ghost inner = str_entries_text(es);
                out.push(',');
                push_str_kv(out, "href", h.as_str());
                proof {
                    let e = ("href"@, h@);
                    lemma_str_entries_push(es, e);
                    lemma_wrap_step(start, prev, inner, str_entry_text(e), '{');
                    es = es.push(e);
                    assert(out@ == start + seq!['{'] + str_entries_text(es));
                }
            }
            if let Some(a) = alt {
                let ghost prev = out@;
                let ghost inner = str_entries_text(es);
                out.push(',');
                push_str_kv(out, "alt", a.as_str());
                proof {
                    let e = ("alt"@, a@);
                    lemma_str_entries_push(es, e);
                    lemma_wrap_step(start, prev, inner, str_entry_text(e), '{');
                    es = es.push(e);
                    assert(out@ == start + seq!['{'] + str_entries_text(es));
                }
            }
            proof {
                assert(seq![("type"@, "image"@)].push(("src"@, src@)) =~= seq![
                    ("type"@, "image"@),
                    ("src"@, src@),
                ]);
                assert(es == ctx_entries(c@));
            }
        },
        Context::Link { href, text } => {
            push_str_kv(out, "type", "link");
            proof {
                es = seq![("type"@, "link"@)];
                assert(str_entries_text(es) == str_entry_text(es[0]));
                lemma_wrap_open(start, '{', str_entry_text(("type"@, "link"@)));
                assert(out@ == start + seq!['{'] + str_entries_text(es));
            }
            let ghost prev = out@;
            let ghost inner = str_entries_text(es);
            out.push(',');
            push_str_kv(out, "href", href.as_str());
            proof {
                let e = ("href"@, href@);
                lemma_str_entries_push(es, e);
                lemma_wrap_step(start, prev, inner, str_entry_text(e), '{');
                es = es.push(e);
                assert(out@ == start + seq!['{'] + str_entries_text(es));
            }
            if let Some(t) = text {
                let ghost prev = out@;
                let ghost inner = str_entries_text(es);
                out.push(',');
                push_str_kv(out, "text", t.as_str());
                proof {
                    let e = ("text"@, t@);
                    lemma_str_entries_push(es, e);
                    lemma_wrap_step(start, prev, inner, str_entry_text(e), '{');
                    es = es.push(e);
                    assert(out@ == start + seq!['{'] + str_entries_text(es));
                }
            }
            proof {
                assert(seq![("type"@, "link"@)].push(("href"@, href@)) =~= seq![
                    ("type"@, "link"@),
                    ("href"@, href@),
                ]);
                assert(es == ctx_entries(c@));
            }
        },
    }
    let ghost prev = out@;
    out.push('}');
    proof {
        lemma_wrap_close_obj(start, prev, str_entries_text(es));
        assert(out@ == old(out)@ + ctx_text(c@));
    }
}

/// Rendered text of an ordered attachment list, comma separated.
pub open spec fn ctx_list_inner(cs: Seq<CtxView>) -> Seq<char>
    decreases cs.len(),
{
    if cs.len() == 0 {
        Seq::empty()
    } else if cs.len() == 1 {
        ctx_text(cs[0])
    } else {
        ctx_list_inner(cs.drop_last()) + seq![','] + ctx_text(cs.last())
    }
}

/// Rendered text of the attachment array.
pub open spec fn ctx_array_text(cs: Seq<CtxView>) -> Seq<char> {
    seq!['['] + ctx_list_inner(cs) + seq![']']
}

/// The view of each attachment of a list, in order.
pub open spec fn ctx_views(cs: Seq<Context>) -> Seq<CtxView> {
    cs.map_values(|c: Context| c@)
}

/// Append the serialized array text of an attachment list.
pub(crate) fn push_ctx_array(out: &mut String, cs: &Vec<Context>)
    ensures
        final(out)@ == old(out)@ + ctx_array_text(ctx_views(cs@)),
{
    let ghost start = out@;
    out.push('[');
    let ghost views = ctx_views(cs@);
    let mut i: usize = 0;
    proof {
        assert(views.take(0) =~= Seq::<CtxView>::empty());
        assert(out@ =~= start + seq!['['] + ctx_list_inner(views.take(0)));
    }
    while i < cs.len()
        invariant
            i <= cs.len(),
            views == ctx_views(cs@),
            views.len() == cs@.len(),
            forall|j: int| 0 <= j < cs@.len() ==> views[j] == cs@[j]@,
            out@ == start + seq!['['] + ctx_list_inner(views.take(i as int)),
        decreases cs.len() - i,
    {
        let ghost prev = out@;
        let ghost inner = ctx_list_inner(views.take(i as int));
        if i > 0 {
            out.push(',');
        }
        push_ctx(out, &cs[i]);
        proof {
            assert(views.take(i as int + 1).drop_last() =~= views.take(i as int));
            assert(views.take(i as int + 1).last() == views[i as int]);
            if i == 0 {
                assert(views.take(1).len() == 1);
                assert(ctx_list_inner(views.take(1)) == ctx_text(views.take(1)[0]));
                lemma_wrap_open(start, '[', ctx_text(views[0]));
            } else {
                assert(ctx_list_inner(views.take(i as int + 1)) == inner + seq![','] + ctx_text(
                    views[i as int],
                ));
                lemma_wrap_step(start, prev, inner, ctx_text(views[i as int]), '[');
            }
            assert(out@ == start + seq!['['] + ctx_list_inner(views.take(i as int + 1)));
        }
        i = i + 1;
    }
    let ghost prev = out@;
    out.push(']');
    proof {
        assert(views.take(cs@.len() as int) =~= views);
        lemma_wrap_close_arr(start, prev, ctx_list_inner(views));
        assert(out@ == old(out)@ + ctx_array_text(views));
    }
}

/// An attachment built as an image never serializes a `text` key, and its
/// optional `href` and `alt` keys appear exactly when they were supplied; one
/// built as a link never serializes `src` or `alt`. Both shapes always carry
/// their `type` tag and their required field.
pub proof fn lemma_ctx_entry_shape(c: CtxView)
    ensures
        c is Image ==> !has_key(ctx_entries(c), "text"@),
        c is Image ==> (has_key(ctx_entries(c), "href"@) <==> c->Image_href is Some),
        c is Image ==> (has_key(ctx_entries(c), "alt"@) <==> c->Image_alt is Some),
        c is Image ==> has_key(ctx_entries(c), "src"@),
        c is Link ==> !has_key(ctx_entries(c), "src"@),
        c is Link ==> !has_key(ctx_entries(c), "alt"@),
        c is Link ==> (has_key(ctx_entries(c), "text"@) <==> c->Link_text is Some),
        c is Link ==> has_key(ctx_entries(c), "href"@),
        has_key(ctx_entries(c), "type"@),
{
    reveal_strlit("type");
    reveal_strlit("src");
    reveal_strlit("href");
    reveal_strlit("alt");
    reveal_strlit("text");
    reveal_strlit("image");
    reveal_strlit("link");
    assert("type"@ != "text"@) by {
        assert("type"@[2] != "text"@[2]);
    }
    assert("type"@ != "src"@) by {
        assert("type"@.len() != "src"@.len());
    }
    assert("type"@ != "href"@) by {
        assert("type"@[0] != "href"@[0]);
    }
    assert("type"@ != "alt"@) by {
        assert("type"@.len() != "alt"@.len());
    }
    assert("src"@ != "href"@) by {
        assert("src"@.len() != "href"@.len());
    }
    assert("src"@ != "alt"@) by {
        assert("src"@[0] != "alt"@[0]);
    }
    assert("src"@ != "text"@) by {
        assert("src"@.len() != "text"@.len());
    }
    assert("href"@ != "alt"@) by {
        assert("href"@.len() != "alt"@.len());
    }
    assert("href"@ != "text"@) by {
        assert("href"@[0] != "text"@[0]);
    }
    assert("alt"@ != "text"@) by {
        assert("alt"@.len() != "text"@.len());
    }
    match c {
        CtxView::Image { src, href, alt } => {
            let base = seq![("type"@, "image"@), ("src"@, src)];
            let with_href = if href is Some {
                base.push(("href"@, href->0))
            } else {
                base
            };
            assert(base[0].0 == "type"@);
            assert(base[1].0 == "src"@);
            if href is Some {
                crate::json::lemma_has_key_push(base, ("href"@, href->0), "text"@);
                crate::json::lemma_has_key_push(base, ("href"@, href->0), "href"@);
                crate::json::lemma_has_key_push(base, ("href"@, href->0), "alt"@);
                crate::json::lemma_has_key_push(base, ("href"@, href->0), "type"@);
                crate::json::lemma_has_key_push(base, ("href"@, href->0), "src"@);
            }
            if alt is Some {
                crate::json::lemma_has_key_push(with_href, ("alt"@, alt->0), "text"@);
                crate::json::lemma_has_key_push(with_href, ("alt"@, alt->0), "href"@);
                crate::json::lemma_has_key_push(with_href, ("alt"@, alt->0), "alt"@);
                crate::json::lemma_has_key_push(with_href, ("alt"@, alt->0), "type"@);
                crate::json::lemma_has_key_push(with_href, ("alt"@, alt->0), "src"@);
            }
        },
        CtxView::Link { href, text } => {
            let base = seq![("type"@, "link"@), ("href"@, href)];
            assert(base[0].0 == "type"@);
            assert(base[1].0 == "href"@);
            if text is Some {
                crate::json::lemma_has_key_push(base, ("text"@, text->0), "src"@);
                crate::json::lemma_has_key_push(base, ("text"@, text->0), "alt"@);
                crate::json::lemma_has_key_push(base, ("text"@, text->0), "text"@);
                crate::json::lemma_has_key_push(base, ("text"@, text->0), "type"@);
                crate::json::lemma_has_key_push(base, ("text"@, text->0), "href"@);
            }
        },
    }
}

} // verus!
