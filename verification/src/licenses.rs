//! Which license texts an invocation asks to see.

use vstd::prelude::*;

verus! {

/// A license text that can be displayed.
#[derive(Debug, Clone, Copy, PartialEq, Eq, Structural)]
pub enum SelectedLicenses {
    /// The license of the tool itself.
    ThisSoftware,
    /// The licenses of the crates the tool is built from.
    Dependencies,
}

/// The display targets that the two license flags select, in display order:
/// the tool's own license first, then those of its dependencies.
pub open spec fn selected_licenses(this_software: bool, dependencies: bool) -> Seq<
    SelectedLicenses,
> {
    let own = if this_software {
        seq![SelectedLicenses::ThisSoftware]
    } else {
        Seq::empty()
    };
    let deps = if dependencies {
        seq![SelectedLicenses::Dependencies]
    } else {
        Seq::empty()
    };
    own + deps
}

/// Resolves the two independent license flags into the ordered list of texts to display.
pub fn resolve_licenses(this_software: bool, dependencies: bool) -> (licenses: Vec<
    SelectedLicenses,
>)
    ensures
        licenses@ == selected_licenses(this_software, dependencies),
{
    let mut licenses: Vec<SelectedLicenses> = Vec::new();
    if this_software {
        licenses.push(SelectedLicenses::ThisSoftware);
    }
    if dependencies {
        licenses.push(SelectedLicenses::Dependencies);
    }
    assert(licenses@ =~= selected_licenses(this_software, dependencies));
    licenses
}

/// The selection depends on the two flags alone and is the one of this table:
/// both flags give both texts, the tool's own first; one flag gives its text; none gives none.
pub proof fn lemma_license_table(this_software: bool, dependencies: bool)
    ensures
        selected_licenses(this_software, dependencies) == match (this_software, dependencies) {
            (true, true) => seq![SelectedLicenses::ThisSoftware, SelectedLicenses::Dependencies],
            (true, false) => seq![SelectedLicenses::ThisSoftware],
            (false, true) => seq![SelectedLicenses::Dependencies],
            (false, false) => Seq::empty(),
        },
{
    assert(selected_licenses(this_software, dependencies) =~= match (this_software, dependencies) {
        (true, true) => seq![SelectedLicenses::ThisSoftware, SelectedLicenses::Dependencies],
        (true, false) => seq![SelectedLicenses::ThisSoftware],
        (false, true) => seq![SelectedLicenses::Dependencies],
        (false, false) => Seq::empty(),
    });
}

} // verus!
