use vstd::prelude::*;
use vstd::string::*;

use crate::decimal::decimal;
use crate::decimal::decimal_value;
use crate::decimal::lemma_decimal_reads_back;
use crate::decimal::push_decimal;

verus! {

/// The public base URL under which the service is reached, as handed to the
/// request handlers.
pub struct ApplicationBaseUrl(pub String);

/// The base URL for `base_url` served on `port`: the URL itself on the
/// standard ports 80 and 443, otherwise the URL followed by `:` and the port.
pub open spec fn base_url_for(base_url: Seq<char>, port: u16) -> Seq<char> {
    if port == 80 || port == 443 {
        base_url
    } else {
        base_url + ":"@ + decimal(port as nat)
    }
}

/// Only the standard ports 80 and 443 leave the base URL as configured; on
/// every other port the URL is followed by `:` and by decimal digits that
/// read back as the port, and by nothing else.
pub proof fn lemma_base_url_names_other_ports(base_url: Seq<char>, port: u16)
    ensures
        (port == 80 || port == 443) ==> base_url_for(base_url, port) == base_url,
        (port != 80 && port != 443) ==> ({
            let url = base_url_for(base_url, port);
            let b = base_url.len() as int;
            &&& url.len() > b + 1
            &&& url.subrange(0, b) == base_url
            &&& url[b] == ':'
            &&& forall|i: int| b + 1 <= i < url.len() ==> '0' <= #[trigger] url[i] <= '9'
            &&& decimal_value(url.subrange(b + 1, url.len() as int)) == port
        }),
{
    if port != 80 && port != 443 {
        reveal_strlit(":");
        lemma_decimal_reads_back(port as nat);
        let url = base_url_for(base_url, port);
        let b = base_url.len() as int;
        assert(url.subrange(0, b) =~= base_url);
        assert(url.subrange(b + 1, url.len() as int) =~= decimal(port as nat));
        assert forall|i: int| b + 1 <= i < url.len() implies '0' <= #[trigger] url[i] <= '9' by {
            assert(url[i] == decimal(port as nat)[i - b - 1]);
        }
    }
}

/// The public base URL of the application configured with `base_url` and
/// `port`.
pub fn get_base_url(base_url: String, port: u16) -> (url: String)
    ensures
        url@ == base_url_for(base_url@, port),
        (port == 80 || port == 443) ==> url@ == base_url@,
        (port != 80 && port != 443) ==> url@ == base_url@ + ":"@ + decimal(port as nat),
{
    if port == 80 || port == 443 {
        base_url
    } else {
        let mut url = base_url;
        url.append(":");
        push_decimal(&mut url, port);
        url
    }
}

} // verus!
