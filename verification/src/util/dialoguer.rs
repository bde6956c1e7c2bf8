//! The interactive prompt theme.  Prompting itself is the driver's
//! work; only the theme value is produced here.

use vstd::prelude::*;

verus! {

#[verifier::external_type_specification]
#[verifier::external_body]
pub struct ExColorfulTheme(dialoguer::theme::ColorfulTheme);

/// Relies on `dialoguer::theme::ColorfulTheme::default`: the colorful
/// prompt theme every interactive question uses.
#[verifier::external_body]
pub fn dialoguer_theme() -> dialoguer::theme::ColorfulTheme {
    dialoguer::theme::ColorfulTheme::default()
}

} // verus!
