//! What the template rendering takes from the library: the subject line.
use vstd::prelude::*;

use crate::db::chunks::TextInfo;

verus! {

/// The subject of a templated e-mail: the type of the occurrence, a colon,
/// then the substation, the bay and the equipment separated by spaces.
pub open spec fn titulo_template_spec(info: TextInfo) -> Seq<char> {
    info.tipo@ + ":"@ + info.subestacao@ + " "@ + info.modulo@ + " "@ + info.equipamento@
}

/// The subject line that goes with the rendered template.
pub fn titulo_template(info: &TextInfo) -> (r: String)
    ensures
        r@ == titulo_template_spec(*info),
{
    let mut r = String::from_str(info.tipo);
    r.append(":");
    r.append(info.subestacao);
    r.append(" ");
    r.append(info.modulo);
    r.append(" ");
    r.append(info.equipamento);
    r
}

} // verus!
