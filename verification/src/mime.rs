//! File extensions and the content types served for them.

use vstd::prelude::*;

verus! {

/// Scans `p` from the back for the extension of its final component,
/// carrying in `acc` the bytes already seen behind the scan point. The
/// extension is what follows the last dot of the final component, unless that
/// dot begins the component (a hidden file has no extension). A component
/// ending in a dot has the empty extension.
pub open spec fn ext_rec(p: Seq<u8>, acc: Seq<u8>) -> Option<Seq<u8>>
    decreases p.len(),
{
    if p.len() == 0 {
        None
    } else if p[p.len() - 1] == 47u8 {
        None
    } else if p[p.len() - 1] == 46u8 {
        if p.len() == 1 || p[p.len() - 2] == 47u8 {
            None
        } else {
            Some(acc)
        }
    } else {
        ext_rec(p.take(p.len() - 1), seq![p[p.len() - 1]] + acc)
    }
}

/// The extension of the final component of `p`, taken byte-wise: the bytes
/// after the last dot, if that dot sits in the final component and does not
/// begin it.
pub open spec fn extension_spec(p: Seq<u8>) -> Option<Seq<u8>> {
    ext_rec(p, Seq::empty())
}

/// Extracts the extension of the final component of `p`.
pub fn extension_of(p: &[u8]) -> (r: Option<Vec<u8>>)
    ensures
        crate::bytes::opt_vec_view(r) == extension_spec(p@),
{
    let mut acc: Vec<u8> = Vec::new();
    let mut i: usize = p.len();
    proof {
        assert(p@.take(p@.len() as int) =~= p@);
    }
    while i > 0
        invariant
            i <= p@.len(),
            extension_spec(p@) == ext_rec(p@.take(i as int), acc@),
        decreases i,
    {
        let b = p[i - 1];
        proof {
            assert(p@.take(i as int)[i - 1] == p@[i - 1]);
        }
        if b == 47 {
            return None;
        }
        if b == 46 {
            if i == 1 {
                return None;
            }
            proof {
                assert(p@.take(i as int)[i - 2] == p@[i - 2]);
            }
            if p[i - 2] == 47 {
                return None;
            }
            return Some(acc);
        }
        let ghost acc_before = acc@;
        acc.insert(0, b);
        proof {
            assert(acc@ =~= seq![p@[i - 1]] + acc_before);
            assert(p@.take(i as int).take(i - 1) =~= p@.take(i - 1));
        }
        i = i - 1;
    }
    proof {
        assert(p@.take(0) =~= Seq::<u8>::empty());
    }
    None
}

/// The extension `html` as bytes.
pub open spec fn ext_html() -> Seq<u8> {
    seq![104u8, 116, 109, 108]
}

/// The extension `htm` as bytes.
pub open spec fn ext_htm() -> Seq<u8> {
    seq![104u8, 116, 109]
}

/// The extension `css` as bytes.
pub open spec fn ext_css() -> Seq<u8> {
    seq![99u8, 115, 115]
}

/// The extension `js` as bytes.
pub open spec fn ext_js() -> Seq<u8> {
    seq![106u8, 115]
}

/// The extension `wasm` as bytes.
pub open spec fn ext_wasm() -> Seq<u8> {
    seq![119u8, 97, 115, 109]
}

/// The extension `json` as bytes.
pub open spec fn ext_json() -> Seq<u8> {
    seq![106u8, 115, 111, 110]
}

/// The extension `png` as bytes.
pub open spec fn ext_png() -> Seq<u8> {
    seq![112u8, 110, 103]
}

/// The extension `jpg` as bytes.
pub open spec fn ext_jpg() -> Seq<u8> {
    seq![106u8, 112, 103]
}

/// The extension `jpeg` as bytes.
pub open spec fn ext_jpeg() -> Seq<u8> {
    seq![106u8, 112, 101, 103]
}

/// The extension `gif` as bytes.
pub open spec fn ext_gif() -> Seq<u8> {
    seq![103u8, 105, 102]
}

/// The extension `svg` as bytes.
pub open spec fn ext_svg() -> Seq<u8> {
    seq![115u8, 118, 103]
}

/// The extension `ico` as bytes.
pub open spec fn ext_ico() -> Seq<u8> {
    seq![105u8, 99, 111]
}

/// The extension `txt` as bytes.
pub open spec fn ext_txt() -> Seq<u8> {
    seq![116u8, 120, 116]
}

/// The content type `text/html` as bytes.
pub open spec fn mime_text_html() -> Seq<u8> {
    seq![116u8, 101, 120, 116, 47, 104, 116, 109, 108]
}

/// The content type `text/css` as bytes.
pub open spec fn mime_text_css() -> Seq<u8> {
    seq![116u8, 101, 120, 116, 47, 99, 115, 115]
}

/// The content type `application/javascript` as bytes.
pub open spec fn mime_app_javascript() -> Seq<u8> {
    seq![97u8, 112, 112, 108, 105, 99, 97, 116, 105, 111, 110, 47, 106, 97, 118, 97, 115, 99, 114, 105, 112, 116]
}

/// The content type `application/wasm` as bytes.
pub open spec fn mime_app_wasm() -> Seq<u8> {
    seq![97u8, 112, 112, 108, 105, 99, 97, 116, 105, 111, 110, 47, 119, 97, 115, 109]
}

/// The content type `application/json` as bytes.
pub open spec fn mime_app_json() -> Seq<u8> {
    seq![97u8, 112, 112, 108, 105, 99, 97, 116, 105, 111, 110, 47, 106, 115, 111, 110]
}

/// The content type `image/png` as bytes.
pub open spec fn mime_image_png() -> Seq<u8> {
    seq![105u8, 109, 97, 103, 101, 47, 112, 110, 103]
}

/// The content type `image/jpeg` as bytes.
pub open spec fn mime_image_jpeg() -> Seq<u8> {
    seq![105u8, 109, 97, 103, 101, 47, 106, 112, 101, 103]
}

/// The content type `image/gif` as bytes.
pub open spec fn mime_image_gif() -> Seq<u8> {
    seq![105u8, 109, 97, 103, 101, 47, 103, 105, 102]
}

/// The content type `image/svg+xml` as bytes.
pub open spec fn mime_image_svg() -> Seq<u8> {
    seq![105u8, 109, 97, 103, 101, 47, 115, 118, 103, 43, 120, 109, 108]
}

/// The content type `image/x-icon` as bytes.
pub open spec fn mime_image_icon() -> Seq<u8> {
    seq![105u8, 109, 97, 103, 101, 47, 120, 45, 105, 99, 111, 110]
}

/// The content type `text/plain` as bytes.
pub open spec fn mime_text_plain() -> Seq<u8> {
    seq![116u8, 101, 120, 116, 47, 112, 108, 97, 105, 110]
}

/// The content type `application/octet-stream` as bytes.
pub open spec fn mime_octet_stream() -> Seq<u8> {
    seq![97u8, 112, 112, 108, 105, 99, 97, 116, 105, 111, 110, 47, 111, 99, 116, 101, 116, 45, 115, 116, 114, 101, 97, 109]
}

/// The content type served for a file extension: a fixed table, with
/// `application/octet-stream` for an unknown or absent extension.
pub open spec fn mime_spec(ext: Option<Seq<u8>>) -> Seq<u8> {
    match ext {
        None => mime_octet_stream(),
        Some(e) => if e == ext_html() {
                mime_text_html()
            } else if e == ext_htm() {
                mime_text_html()
            } else if e == ext_css() {
                mime_text_css()
            } else if e == ext_js() {
                mime_app_javascript()
            } else if e == ext_wasm() {
                mime_app_wasm()
            } else if e == ext_json() {
                mime_app_json()
            } else if e == ext_png() {
                mime_image_png()
            } else if e == ext_jpg() {
                mime_image_jpeg()
            } else if e == ext_jpeg() {
                mime_image_jpeg()
            } else if e == ext_gif() {
                mime_image_gif()
            } else if e == ext_svg() {
                mime_image_svg()
            } else if e == ext_ico() {
                mime_image_icon()
            } else if e == ext_txt() {
                mime_text_plain()
            } else {
                mime_octet_stream()
            },
    }
}

/// Looks the extension up in the table above.
pub fn mime_for(ext: Option<&[u8]>) -> (r: Vec<u8>)
    ensures
        r@ == mime_spec(crate::bytes::opt_bytes_view(ext)),
{
    match ext {
        None => {
            let r: Vec<u8> = vec![97u8, 112, 112, 108, 105, 99, 97, 116, 105, 111, 110, 47, 111, 99, 116, 101, 116, 45, 115, 116, 114, 101, 97, 109];
            proof {
                assert(r@ =~= mime_octet_stream());
            }
            r
        },
        Some(e) => {
            let key_html: Vec<u8> = vec![104u8, 116, 109, 108];
            proof {
                assert(key_html@ =~= ext_html());
            }
            if crate::bytes::bytes_eq(e, key_html.as_slice()) {
                let r: Vec<u8> = vec![116u8, 101, 120, 116, 47, 104, 116, 109, 108];
                proof {
                    assert(r@ =~= mime_text_html());
                }
                return r;
            }
            let key_htm: Vec<u8> = vec![104u8, 116, 109];
            proof {
                assert(key_htm@ =~= ext_htm());
            }
            if crate::bytes::bytes_eq(e, key_htm.as_slice()) {
                let r: Vec<u8> = vec![116u8, 101, 120, 116, 47, 104, 116, 109, 108];
                proof {
                    assert(r@ =~= mime_text_html());
                }
                return r;
            }
            let key_css: Vec<u8> = vec![99u8, 115, 115];
            proof {
                assert(key_css@ =~= ext_css());
            }
            if crate::bytes::bytes_eq(e, key_css.as_slice()) {
                let r: Vec<u8> = vec![116u8, 101, 120, 116, 47, 99, 115, 115];
                proof {
                    assert(r@ =~= mime_text_css());
                }
                return r;
            }
            let key_js: Vec<u8> = vec![106u8, 115];
            proof {
                assert(key_js@ =~= ext_js());
            }
            if crate::bytes::bytes_eq(e, key_js.as_slice()) {
                let r: Vec<u8> = vec![97u8, 112, 112, 108, 105, 99, 97, 116, 105, 111, 110, 47, 106, 97, 118, 97, 115, 99, 114, 105, 112, 116];
                proof {
                    assert(r@ =~= mime_app_javascript());
                }
                return r;
            }
            let key_wasm: Vec<u8> = vec![119u8, 97, 115, 109];
            proof {
                assert(key_wasm@ =~= ext_wasm());
            }
            if crate::bytes::bytes_eq(e, key_wasm.as_slice()) {
                let r: Vec<u8> = vec![97u8, 112, 112, 108, 105, 99, 97, 116, 105, 111, 110, 47, 119, 97, 115, 109];
                proof {
                    assert(r@ =~= mime_app_wasm());
                }
                return r;
            }
            let key_json: Vec<u8> = vec![106u8, 115, 111, 110];
            proof {
                assert(key_json@ =~= ext_json());
            }
            if crate::bytes::bytes_eq(e, key_json.as_slice()) {
                let r: Vec<u8> = vec![97u8, 112, 112, 108, 105, 99, 97, 116, 105, 111, 110, 47, 106, 115, 111, 110];
                proof {
                    assert(r@ =~= mime_app_json());
                }
                return r;
            }
            let key_png: Vec<u8> = vec![112u8, 110, 103];
            proof {
                assert(key_png@ =~= ext_png());
            }
            if crate::bytes::bytes_eq(e, key_png.as_slice()) {
                let r: Vec<u8> = vec![105u8, 109, 97, 103, 101, 47, 112, 110, 103];
                proof {
                    assert(r@ =~= mime_image_png());
                }
                return r;
            }
            let key_jpg: Vec<u8> = vec![106u8, 112, 103];
            proof {
                assert(key_jpg@ =~= ext_jpg());
            }
            if crate::bytes::bytes_eq(e, key_jpg.as_slice()) {
                let r: Vec<u8> = vec![105u8, 109, 97, 103, 101, 47, 106, 112, 101, 103];
                proof {
                    assert(r@ =~= mime_image_jpeg());
                }
                return r;
            }
            let key_jpeg: Vec<u8> = vec![106u8, 112, 101, 103];
            proof {
                assert(key_jpeg@ =~= ext_jpeg());
            }
            if crate::bytes::bytes_eq(e, key_jpeg.as_slice()) {
                let r: Vec<u8> = vec![105u8, 109, 97, 103, 101, 47, 106, 112, 101, 103];
                proof {
                    assert(r@ =~= mime_image_jpeg());
                }
                return r;
            }
            let key_gif: Vec<u8> = vec![103u8, 105, 102];
            proof {
                assert(key_gif@ =~= ext_gif());
            }
            if crate::bytes::bytes_eq(e, key_gif.as_slice()) {
                let r: Vec<u8> = vec![105u8, 109, 97, 103, 101, 47, 103, 105, 102];
                proof {
                    assert(r@ =~= mime_image_gif());
                }
                return r;
            }
            let key_svg: Vec<u8> = vec![115u8, 118, 103];
            proof {
                assert(key_svg@ =~= ext_svg());
            }
            if crate::bytes::bytes_eq(e, key_svg.as_slice()) {
                let r: Vec<u8> = vec![105u8, 109, 97, 103, 101, 47, 115, 118, 103, 43, 120, 109, 108];
                proof {
                    assert(r@ =~= mime_image_svg());
                }
                return r;
            }
            let key_ico: Vec<u8> = vec![105u8, 99, 111];
            proof {
                assert(key_ico@ =~= ext_ico());
            }
            if crate::bytes::bytes_eq(e, key_ico.as_slice()) {
                let r: Vec<u8> = vec![105u8, 109, 97, 103, 101, 47, 120, 45, 105, 99, 111, 110];
                proof {
                    assert(r@ =~= mime_image_icon());
                }
                return r;
            }
            let key_txt: Vec<u8> = vec![116u8, 120, 116];
            proof {
                assert(key_txt@ =~= ext_txt());
            }
            if crate::bytes::bytes_eq(e, key_txt.as_slice()) {
                let r: Vec<u8> = vec![116u8, 101, 120, 116, 47, 112, 108, 97, 105, 110];
                proof {
                    assert(r@ =~= mime_text_plain());
                }
                return r;
            }
            let r: Vec<u8> = vec![97u8, 112, 112, 108, 105, 99, 97, 116, 105, 111, 110, 47, 111, 99, 116, 101, 116, 45, 115, 116, 114, 101, 97, 109];
            proof {
                assert(r@ =~= mime_octet_stream());
            }
            r
        },
    }
}

} // verus!
