//! The script and style sheet that the pages share, written next to the
//! pages when the server starts.
use vstd::prelude::*;

pub mod css_source;
pub mod js_source;

verus! {

/// The file a kind of shared source goes to, and its text: `pages/wc.js`
/// for `js`, `pages/wc.css` for `css`, and no text for any other kind.
pub fn handle_dtype(dtype: &str) -> (res: (String, String))
    ensures
        res.0@ == "pages/wc."@ + dtype@,
        res.1@ == (if dtype@ == "js"@ {
            js_source::js_source()
        } else if dtype@ == "css"@ {
            css_source::css_source()
        } else {
            Seq::<char>::empty()
        }),
{
    let mut filename = "pages/wc.".to_owned();
    filename.append(dtype);
    let d = dtype.to_owned();
    let source = if d == "js".to_owned() {
        js_source::contents()
    } else if d == "css".to_owned() {
        css_source::contents()
    } else {
        String::new()
    };
    (filename, source)
}

/// The files to write so that the pages get the latest script and style
/// sheet: the script first, then the style sheet.
pub fn setup() -> (res: Vec<(String, String)>)
    ensures
        res@.len() == 2,
        res@[0].0@ == "pages/wc."@ + "js"@,
        res@[0].1@ == js_source::js_source(),
        res@[1].0@ == "pages/wc."@ + "css"@,
        res@[1].1@ == css_source::css_source(),
{
    proof {
        reveal_strlit("js");
        reveal_strlit("css");
    }
    let mut files = Vec::new();
    files.push(handle_dtype("js"));
    files.push(handle_dtype("css"));
    files
}

} // verus!
