//! Lo que deciden las rutas protegidas según el rol.
use vstd::prelude::*;
use vstd::string::StringExecFns;

use crate::texto::iguales;

verus! {

/// El contenido del dashboard: completo para "admin", limitado para el resto.
pub open spec fn contenido_dashboard_spec(role: Seq<char>) -> Seq<char> {
    if role == "admin"@ {
        "Vista completa del dashboard"@
    } else {
        "Vista limitada del dashboard"@
    }
}

/// El contenido del dashboard para un rol.
pub fn contenido_dashboard(role: &str) -> (r: String)
    ensures
        r@ == contenido_dashboard_spec(role@),
{
    if iguales(role, "admin") {
        String::from_str("Vista completa del dashboard")
    } else {
        String::from_str("Vista limitada del dashboard")
    }
}

} // verus!
