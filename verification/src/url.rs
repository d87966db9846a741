//! Endpoint URL normalization: validate a raw endpoint string and rewrite it
//! to the socket scheme, or reject it with a configuration error.

use vstd::prelude::*;

use crate::text::{is_ws_char, lemma_trim_noop, starts_with_spec, starts_with_str, trim_spec,
    trim_str};

verus! {

/// The error reported when the endpoint is empty after trimming.
pub open spec fn err_url_required() -> Seq<char> {
    "Orbit provider requires orbitWsUrl in app settings."@
}

/// The error reported when the endpoint carries an unsupported scheme.
pub open spec fn err_url_scheme() -> Seq<char> {
    "orbitWsUrl must start with https://, http://, wss://, or ws://"@
}

/// What `normalize_ws_url` returns, stated over character sequences: the
/// input is trimmed, an empty result is rejected, `https://` and `http://`
/// are rewritten to `wss://` and `ws://` with the remainder kept verbatim,
/// the socket schemes pass through unchanged, and anything else is rejected.
pub open spec fn normalize_ws_url_spec(raw: Seq<char>) -> Result<Seq<char>, Seq<char>> {
    let t = trim_spec(raw);
    if t.len() == 0 {
        Err(err_url_required())
    } else if starts_with_spec(t, "https://"@) {
        Ok("wss://"@ + t.skip("https://"@.len() as int))
    } else if starts_with_spec(t, "http://"@) {
        Ok("ws://"@ + t.skip("http://"@.len() as int))
    } else if starts_with_spec(t, "wss://"@) || starts_with_spec(t, "ws://"@) {
        Ok(t)
    } else {
        Err(err_url_scheme())
    }
}

/// Validate and normalize a raw endpoint string to the socket scheme.
pub fn normalize_ws_url(ws_url: &str) -> (r: Result<String, String>)
    ensures
        match r {
            Ok(u) => normalize_ws_url_spec(ws_url@) == Ok::<Seq<char>, Seq<char>>(u@),
            Err(e) => normalize_ws_url_spec(ws_url@) == Err::<Seq<char>, Seq<char>>(e@),
        },
{
    let raw_url = trim_str(ws_url);
    let n = raw_url.unicode_len();
    if n == 0 {
        return Err(String::from_str("Orbit provider requires orbitWsUrl in app settings."));
    }
    if starts_with_str(raw_url, "https://") {
        let pn = "https://".unicode_len();
        let rest = raw_url.substring_char(pn, n);
        proof {
            assert(rest@ =~= raw_url@.skip("https://"@.len() as int));
        }
        return Ok(String::from_str("wss://").concat(rest));
    }
    if starts_with_str(raw_url, "http://") {
        let pn = "http://".unicode_len();
        let rest = raw_url.substring_char(pn, n);
        proof {
            assert(rest@ =~= raw_url@.skip("http://"@.len() as int));
        }
        return Ok(String::from_str("ws://").concat(rest));
    }
    if starts_with_str(raw_url, "wss://") || starts_with_str(raw_url, "ws://") {
        return Ok(String::from_str(raw_url));
    }
    Err(String::from_str("orbitWsUrl must start with https://, http://, wss://, or ws://"))
}

/// Law: for any non-empty remainder `s` that does not end in whitespace,
/// normalizing `"https://" + s` yields `"wss://" + s`, and normalizing
/// `"http://" + s` yields `"ws://" + s`, the remainder kept verbatim.
pub proof fn lemma_normalize_rewrites_http_schemes(s: Seq<char>)
    requires
        s.len() > 0,
        !is_ws_char(s.last()),
    ensures
        normalize_ws_url_spec("https://"@ + s) == Ok::<Seq<char>, Seq<char>>("wss://"@ + s),
        normalize_ws_url_spec("http://"@ + s) == Ok::<Seq<char>, Seq<char>>("ws://"@ + s),
{
    reveal_strlit("https://");
    reveal_strlit("http://");
    let hs = "https://"@ + s;
    let hp = "http://"@ + s;
    assert(hs[0] == 'h' && hs.last() == s.last());
    assert(hp[0] == 'h' && hp.last() == s.last());
    lemma_trim_noop(hs);
    lemma_trim_noop(hp);
    assert(starts_with_spec(hs, "https://"@)) by {
        assert(hs.subrange(0, 8) =~= "https://"@);
    }
    assert(hs.skip(8) =~= s);
    assert(starts_with_spec(hp, "http://"@)) by {
        assert(hp.subrange(0, 7) =~= "http://"@);
    }
    assert(!starts_with_spec(hp, "https://"@)) by {
        if starts_with_spec(hp, "https://"@) {
            assert(hp.subrange(0, 8)[4] == hp[4]);
            assert(hp[4] == '/');
        }
    }
    assert(hp.skip(7) =~= s);
}

/// Law: a string already carrying the `ws://` or `wss://` scheme, not ending
/// in whitespace, is passed through unchanged.
pub proof fn lemma_normalize_keeps_ws_schemes(s: Seq<char>)
    requires
        starts_with_spec(s, "ws://"@) || starts_with_spec(s, "wss://"@),
        !is_ws_char(s.last()),
    ensures
        normalize_ws_url_spec(s) == Ok::<Seq<char>, Seq<char>>(s),
{
    reveal_strlit("ws://");
    reveal_strlit("wss://");
    reveal_strlit("https://");
    reveal_strlit("http://");
    if starts_with_spec(s, "ws://"@) {
        assert(s.subrange(0, 5)[0] == s[0]);
        assert(s[0] == 'w');
    } else {
        assert(s.subrange(0, 6)[0] == s[0]);
        assert(s[0] == 'w');
    }
    lemma_trim_noop(s);
    assert(!starts_with_spec(s, "https://"@)) by {
        if starts_with_spec(s, "https://"@) {
            assert(s.subrange(0, 8)[0] == s[0]);
        }
    }
    assert(!starts_with_spec(s, "http://"@)) by {
        if starts_with_spec(s, "http://"@) {
            assert(s.subrange(0, 7)[0] == s[0]);
        }
    }
}

} // verus!
