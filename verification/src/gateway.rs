//! The legacy gateway's presentation step: it rewrites a static page
//! template, embedding the returned loader script and a byte-array
//! constructor call for the binary module, so a browser can consume a
//! successful build directly.

use vstd::prelude::*;
use vstd::string::*;
use crate::strutil::{append_decimal_u32, replace_all, spec_decimal, spec_replace};

verus! {

/// The static page the legacy gateway serves, with one marker for the
/// loader script and one for the module initialisation call.
pub open spec fn spec_page_template() -> Seq<char> {
    "<!doctype html>\n<html lang=\"en\">\n<head>\n    <meta charset=\"UTF-8\">\n    <title>Document</title>\n</head>\n<body>\n    <script type=\"module\">\n    /*JS_GOES_HERE*/\n    /*INIT_GOES_HERE*/\n    </script>\n</body>\n</html>\n"@
}

pub fn page_template() -> (r: &'static str)
    ensures
        r@ == spec_page_template(),
{
    "<!doctype html>\n<html lang=\"en\">\n<head>\n    <meta charset=\"UTF-8\">\n    <title>Document</title>\n</head>\n<body>\n    <script type=\"module\">\n    /*JS_GOES_HERE*/\n    /*INIT_GOES_HERE*/\n    </script>\n</body>\n</html>\n"
}

/// The decimal renderings of the bytes, separated by comma and space.
pub open spec fn spec_byte_list(w: Seq<u8>) -> Seq<char>
    decreases w.len(),
{
    if w.len() == 0 {
        Seq::empty()
    } else if w.len() == 1 {
        spec_decimal(w[0] as int)
    } else {
        spec_byte_list(w.drop_last()) + ", "@ + spec_decimal(w.last() as int)
    }
}

/// The bytes as a bracketed decimal list.
pub open spec fn spec_byte_array(w: Seq<u8>) -> Seq<char> {
    "["@ + spec_byte_list(w) + "]"@
}

/// Renders the module bytes as a bracketed decimal list.
pub fn render_byte_array(w: &Vec<u8>) -> (r: String)
    ensures
        r@ == spec_byte_array(w@),
{
    let mut out = String::from_str("[");
    let n = w.len();
    let mut i: usize = 0;
    proof {
        assert(out@ =~= "["@ + spec_byte_list(w@.take(0)));
    }
    while i < n
        invariant
            0 <= i <= n,
            n == w@.len(),
            out@ == "["@ + spec_byte_list(w@.take(i as int)),
        decreases n - i,
    {
        if i > 0 {
            out.append(", ");
        }
        append_decimal_u32(&mut out, w[i] as u32);
        proof {
            assert(w@.take(i + 1).drop_last() =~= w@.take(i as int));
            assert(w@.take(i + 1).last() == w@[i as int]);
            assert(out@ =~= "["@ + spec_byte_list(w@.take(i + 1)));
        }
        i = i + 1;
    }
    out.append("]");
    proof {
        assert(w@.take(n as int) =~= w@);
        assert(out@ =~= spec_byte_array(w@));
    }
    out
}

/// The initialisation call embedded for the module bytes.
pub open spec fn spec_init_call(w: Seq<u8>) -> Seq<char> {
    "init((new Int8Array("@ + spec_byte_array(w) + ")).buffer)"@
}

pub fn render_init_call(w: &Vec<u8>) -> (r: String)
    ensures
        r@ == spec_init_call(w@),
{
    let mut out = String::from_str("init((new Int8Array(");
    let arr = render_byte_array(w);
    out.append(arr.as_str());
    out.append(")).buffer)");
    proof {
        assert(out@ =~= spec_init_call(w@));
    }
    out
}

/// The page a successful build renders to: the template with the loader
/// script and then the initialisation call substituted in.
pub open spec fn spec_rendered_page(js: Seq<char>, w: Seq<u8>) -> Seq<char> {
    spec_replace(
        spec_replace(spec_page_template(), "/*JS_GOES_HERE*/"@, js),
        "/*INIT_GOES_HERE*/"@,
        spec_init_call(w),
    )
}

/// Rewrites the page template for one successful build.
pub fn render_page(js: &str, wasm: &Vec<u8>) -> (r: String)
    ensures
        r@ == spec_rendered_page(js@, wasm@),
{
    proof {
        reveal_strlit("/*JS_GOES_HERE*/");
        reveal_strlit("/*INIT_GOES_HERE*/");
    }
    let template = page_template();
    let with_js = replace_all(template, "/*JS_GOES_HERE*/", js);
    let init = render_init_call(wasm);
    replace_all(with_js.as_str(), "/*INIT_GOES_HERE*/", init.as_str())
}

} // verus!
