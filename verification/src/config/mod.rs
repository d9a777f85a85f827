//! Server configuration and the server icon.
pub mod types;

use crate::crypto::{base64_encode, base64_of};
use vstd::prelude::*;
use vstd::string::StringExecFns;

verus! {

/// The data URL under which the server list shows a PNG icon with content `png`.
pub open spec fn icon_url(png: Seq<u8>) -> Seq<char> {
    "data:image/png;base64,"@ + base64_of(png)
}

/// The server icon as the server list wants it, from the content of the icon file.
pub fn load_server_icon(file_content: &[u8]) -> (r: String)
    ensures
        r@ == icon_url(file_content@),
{
    let mut url = "data:image/png;base64,".to_owned();
    let encoded = base64_encode(file_content);
    url.append(encoded.as_str());
    url
}

} // verus!
