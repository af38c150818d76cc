//! Names of the images that the runner pulls and starts.

use vstd::prelude::*;
use crate::text::{
    law_strip_suffix_char_all, strip_prefix_all, strip_prefix_all_exec, strip_suffix_char_all,
    strip_suffix_char_all_exec,
};

verus! {

/// The registry host that prefixes image names: the endpoint without any
/// leading `http://` repetitions, then without any leading `https://`
/// repetitions, then without trailing slashes.
pub open spec fn registry_host(endpoint: Seq<char>) -> Seq<char> {
    strip_suffix_char_all(
        strip_prefix_all(strip_prefix_all(endpoint, "http://"@), "https://"@),
        '/',
    )
}

/// The fully qualified name of `image` in the registry at `endpoint`; an empty
/// endpoint leaves the image name as it is.
pub open spec fn full_image_name(endpoint: Seq<char>, image: Seq<char>) -> Seq<char> {
    if endpoint.len() == 0 {
        image
    } else {
        registry_host(endpoint) + "/"@ + image
    }
}

/// Qualifies `image` with the host of `registry_endpoint`.
pub fn build_full_image_name(registry_endpoint: &str, image: &str) -> (res: String)
    ensures
        res@ == full_image_name(registry_endpoint@, image@),
{
    if registry_endpoint.is_empty() {
        return image.to_owned();
    }
    let no_http = strip_prefix_all_exec(registry_endpoint, "http://");
    let no_https = strip_prefix_all_exec(no_http.as_str(), "https://");
    let mut host = strip_suffix_char_all_exec(no_https.as_str(), '/');
    host.append("/");
    host.append(image);
    host
}

/// An empty endpoint leaves the image name as it is. Any other endpoint
/// prefixes it with a `/` and the endpoint's host: the endpoint without its
/// leading `http://` copies, then without its leading `https://` copies, then
/// without its trailing slashes (see `text::law_strip_prefix_all` and
/// `text::law_strip_suffix_char_all` for what each removal leaves).
pub proof fn law_full_image_name(endpoint: Seq<char>, image: Seq<char>)
    ensures
        endpoint.len() == 0 ==> full_image_name(endpoint, image) == image,
        endpoint.len() > 0 ==> full_image_name(endpoint, image) == strip_suffix_char_all(
            strip_prefix_all(strip_prefix_all(endpoint, "http://"@), "https://"@),
            '/',
        ) + "/"@ + image,
        endpoint.len() > 0 ==> full_image_name(endpoint, image).len() == registry_host(endpoint).len() + 1
            + image.len(),
        endpoint.len() > 0 ==> registry_host(endpoint).len() == 0 || registry_host(endpoint).last() != '/',
{
    law_strip_suffix_char_all(strip_prefix_all(strip_prefix_all(endpoint, "http://"@), "https://"@), '/');
    reveal_strlit("/");
}

} // verus!
