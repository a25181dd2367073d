//! The headers that every response gets.
use vstd::prelude::*;

verus! {

/// A header that the common-headers middleware sets.
#[derive(Debug, Clone, Copy, PartialEq, Eq, Structural)]
pub enum CommonHeader {
    AccessControlAllowOrigin,
    StrictTransportSecurity,
    XContentTypeOptions,
    XFrameOptions,
    XXssProtection,
    Vary,
}

/// The statuses on which nginx's `add_header` adds its headers.
pub open spec fn nginx_success_codes() -> Seq<u16> {
    seq![200u16, 201, 204, 206, 301, 302, 303, 304, 307, 308]
}

/// Whether nginx would add its headers to a response with this status
/// (see http://nginx.org/en/docs/http/ngx_http_headers_module.html#add_header).
pub fn is_nginx_success_code(status: u16) -> (r: bool)
    ensures
        r == nginx_success_codes().contains(status),
{
    let codes: [u16; 10] = [200, 201, 204, 206, 301, 302, 303, 304, 307, 308];
    assert(codes@ == nginx_success_codes());
    let mut i: usize = 0;
    while i < 10
        invariant
            codes@ == nginx_success_codes(),
            i <= 10,
            forall|j: int| 0 <= j < i ==> codes@[j] != status,
        decreases 10 - i,
    {
        if codes[i] == status {
            assert(nginx_success_codes()[i as int] == status);
            return true;
        }
        i = i + 1;
    }
    false
}

/// The headers set on a response with the given status, with their values:
/// CORS and HSTS always, the browser-hardening headers only on the statuses
/// where nginx would add them.
pub open spec fn spec_common_headers(status: u16) -> Seq<(CommonHeader, Seq<char>)> {
    let always = seq![
        (CommonHeader::AccessControlAllowOrigin, "*"@),
        (CommonHeader::StrictTransportSecurity, "max-age=31536000"@),
    ];
    if nginx_success_codes().contains(status) {
        always + seq![
            (CommonHeader::XContentTypeOptions, "nosniff"@),
            (CommonHeader::XFrameOptions, "SAMEORIGIN"@),
            (CommonHeader::XXssProtection, "0"@),
            (CommonHeader::Vary, "Accept, Accept-Encoding, Cookie"@),
        ]
    } else {
        always
    }
}

/// The headers added to a response with the given status, in order.
pub fn common_headers(status: u16) -> (h: Vec<(CommonHeader, &'static str)>)
    ensures
        h@.len() == spec_common_headers(status).len(),
        forall|i: int|
            0 <= i < h@.len() ==> (#[trigger] h@[i]).0 == spec_common_headers(status)[i].0
                && h@[i].1@ == spec_common_headers(status)[i].1,
{
    let mut headers: Vec<(CommonHeader, &'static str)> = Vec::new();
    headers.push((CommonHeader::AccessControlAllowOrigin, "*"));
    headers.push((CommonHeader::StrictTransportSecurity, "max-age=31536000"));
    if is_nginx_success_code(status) {
        headers.push((CommonHeader::XContentTypeOptions, "nosniff"));
        headers.push((CommonHeader::XFrameOptions, "SAMEORIGIN"));
        headers.push((CommonHeader::XXssProtection, "0"));
        headers.push((CommonHeader::Vary, "Accept, Accept-Encoding, Cookie"));
    }
    headers
}

/// Every response allows any origin and asks for HTTPS; a response that is
/// neither a success nor a redirect nginx knows gets no other header.
pub proof fn lemma_cors_and_hsts_always(status: u16)
    ensures
        spec_common_headers(status).len() >= 2,
        spec_common_headers(status)[0] == (CommonHeader::AccessControlAllowOrigin, "*"@),
        spec_common_headers(status)[1] == (
            CommonHeader::StrictTransportSecurity,
            "max-age=31536000"@,
        ),
        !nginx_success_codes().contains(status) ==> spec_common_headers(status).len() == 2,
        nginx_success_codes().contains(status) ==> spec_common_headers(status).len() == 6,
{
}

/// Every status that nginx counts as a success or a redirect, 200, 201, 204,
/// 206, 301, 302, 303, 304, 307 and 308, gets the same six headers with the
/// same values, in this order; every other status gets only the first two.
pub proof fn lemma_success_headers(status: u16)
    ensures
        (status == 200 || status == 201 || status == 204 || status == 206 || status == 301
            || status == 302 || status == 303 || status == 304 || status == 307 || status == 308)
            ==> spec_common_headers(status) == seq![
            (CommonHeader::AccessControlAllowOrigin, "*"@),
            (CommonHeader::StrictTransportSecurity, "max-age=31536000"@),
            (CommonHeader::XContentTypeOptions, "nosniff"@),
            (CommonHeader::XFrameOptions, "SAMEORIGIN"@),
            (CommonHeader::XXssProtection, "0"@),
            (CommonHeader::Vary, "Accept, Accept-Encoding, Cookie"@),
        ],
        !(status == 200 || status == 201 || status == 204 || status == 206 || status == 301
            || status == 302 || status == 303 || status == 304 || status == 307 || status == 308)
            ==> spec_common_headers(status) == seq![
            (CommonHeader::AccessControlAllowOrigin, "*"@),
            (CommonHeader::StrictTransportSecurity, "max-age=31536000"@),
        ],
{
    let codes = nginx_success_codes();
    if status == 200 || status == 201 || status == 204 || status == 206 || status == 301
        || status == 302 || status == 303 || status == 304 || status == 307 || status == 308 {
        let i: int = if status == 200 { 0 } else if status == 201 { 1 } else if status == 204 {
            2
        } else if status == 206 { 3 } else if status == 301 { 4 } else if status == 302 {
            5
        } else if status == 303 { 6 } else if status == 304 { 7 } else if status == 307 {
            8
        } else { 9 };
        assert(codes[i] == status);
        assert(codes.contains(status));
    } else {
        assert(!codes.contains(status)) by {
            if codes.contains(status) {
                let j = choose|j: int| 0 <= j < codes.len() && codes[j] == status;
                assert(0 <= j < 10);
            }
        }
    }
}

} // verus!
