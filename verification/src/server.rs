//! The page of the web server.

use vstd::prelude::*;
use crate::text::hex_text;

verus! {

/// An address as the page shows it.
pub open spec fn shown_address(address: usize) -> Seq<char> {
    "0x"@ + crate::text::numeral(address as nat, 16)
}

/// The text of the page.
pub open spec fn page_text(data_address: usize, external_data_address: usize) -> Seq<char> {
    "test2. curr crate data addr "@ + shown_address(data_address)
        + " \nexternal crate data addr "@ + shown_address(external_data_address)
}

/// The text of the page: where the data of this crate and of the other crate lies.
pub fn get_str(data_address: usize, external_data_address: usize) -> (text: String)
    ensures
        text@ == "test2. curr crate data addr "@ + shown_address(data_address)
            + " \nexternal crate data addr "@ + shown_address(external_data_address),
        text@ == page_text(data_address, external_data_address),
{
    let text: String = "test2. curr crate data addr ".to_owned().concat("0x").concat(
        hex_text(data_address as u64).as_str(),
    ).concat(" \nexternal crate data addr ").concat("0x").concat(
        hex_text(external_data_address as u64).as_str(),
    );
    assert(text@ =~= "test2. curr crate data addr "@ + shown_address(data_address)
        + " \nexternal crate data addr "@ + shown_address(external_data_address));
    text
}

/// An address is shown as its hexadecimal digits behind a prefix, so that different addresses are
/// shown differently.
pub proof fn law_shown_addresses_tell_addresses_apart(address: usize, other: usize)
    ensures
        shown_address(address) == "0x"@ + crate::text::numeral(address as nat, 16),
        shown_address(address) == shown_address(other) ==> address == other,
{
    if shown_address(address) == shown_address(other) {
        let a = crate::text::numeral(address as nat, 16);
        let b = crate::text::numeral(other as nat, 16);
        let shown = shown_address(address);
        let before = "0x"@.len() as int;
        assert(a =~= shown.skip(before));
        assert(b =~= shown.skip(before));
        crate::text::law_numerals_tell_numbers_apart(address as nat, other as nat, 16);
    }
}

/// The page shows the address of this crate's data first and that of the other crate's data last;
/// where one of them changes, what the page shows changes.
pub proof fn law_page_shows_both_addresses(address: usize, external: usize, other: usize)
    ensures
        page_text(address, external) == "test2. curr crate data addr 0x"@ + crate::text::numeral(
            address as nat,
            16,
        ) + " \nexternal crate data addr 0x"@ + crate::text::numeral(external as nat, 16),
        page_text(address, external) == page_text(address, other) ==> external == other,
{
    reveal_strlit("test2. curr crate data addr 0x");
    reveal_strlit("test2. curr crate data addr ");
    reveal_strlit(" \nexternal crate data addr 0x");
    reveal_strlit(" \nexternal crate data addr ");
    reveal_strlit("0x");
    assert("test2. curr crate data addr 0x"@ =~= "test2. curr crate data addr "@ + "0x"@);
    assert(" \nexternal crate data addr 0x"@ =~= " \nexternal crate data addr "@ + "0x"@);
    assert(page_text(address, external) =~= "test2. curr crate data addr 0x"@
        + crate::text::numeral(address as nat, 16) + " \nexternal crate data addr 0x"@
        + crate::text::numeral(external as nat, 16));
    if page_text(address, external) == page_text(address, other) {
        let before = ("test2. curr crate data addr "@ + shown_address(address)
            + " \nexternal crate data addr "@).len() as int;
        assert(page_text(address, external).skip(before) =~= shown_address(external));
        assert(page_text(address, other).skip(before) =~= shown_address(other));
        law_shown_addresses_tell_addresses_apart(external, other);
    }
}

} // verus!
