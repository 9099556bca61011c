//! What the service prints when it starts.

use vstd::prelude::*;
use crate::text::chars::owned;
use crate::text::decimal::{decimal, decimal_text};
use crate::tui::tables::{pad, padded};

verus! {

/// The banner of the service on a port.
pub open spec fn banner_text(port: u16) -> Seq<char> {
    "
+------------------------------------------------------------+
|                                                            |
|   ██╗   ██╗ █████╗ ███╗   ██╗██╗██╗     ██╗      █████╗   |
|   ██║   ██║██╔══██╗████╗  ██║██║██║     ██║     ██╔══██╗  |
|   ██║   ██║███████║██╔██╗ ██║██║██║     ██║     ███████║  |
|   ╚██╗ ██╔╝██╔══██║██║╚██╗██║██║██║     ██║     ██╔══██║  |
|    ╚████╔╝ ██║  ██║██║ ╚████║██║███████╗███████╗██║  ██║  |
|     ╚═══╝  ╚═╝  ╚═╝╚═╝  ╚═══╝╚═╝╚══════╝╚══════╝╚═╝  ╚═╝  |
|                                                            |
|   Backend online                                           |
|   HTTP: http://localhost:"@ + padded(decimal(port as nat), 5)
        + "                              |
|   TUI:  cargo run --bin vanilla-tui                        |
|                                                            |
+------------------------------------------------------------+
"@
}

/// The banner of the service on a port.
pub fn banner(port: u16) -> (r: String)
    ensures
        r@ == banner_text(port),
{
    let number: String = decimal_text(port as u128);
    let column: String = pad(number.as_str(), 5);
    let mut out: String = owned(
        "
+------------------------------------------------------------+
|                                                            |
|   ██╗   ██╗ █████╗ ███╗   ██╗██╗██╗     ██╗      █████╗   |
|   ██║   ██║██╔══██╗████╗  ██║██║██║     ██║     ██╔══██╗  |
|   ██║   ██║███████║██╔██╗ ██║██║██║     ██║     ███████║  |
|   ╚██╗ ██╔╝██╔══██║██║╚██╗██║██║██║     ██║     ██╔══██║  |
|    ╚████╔╝ ██║  ██║██║ ╚████║██║███████╗███████╗██║  ██║  |
|     ╚═══╝  ╚═╝  ╚═╝╚═╝  ╚═══╝╚═╝╚══════╝╚══════╝╚═╝  ╚═╝  |
|                                                            |
|   Backend online                                           |
|   HTTP: http://localhost:",
    );
    out.append(column.as_str());
    out.append(
        "                              |
|   TUI:  cargo run --bin vanilla-tui                        |
|                                                            |
+------------------------------------------------------------+
",
    );
    out
}

} // verus!
