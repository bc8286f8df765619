//! La configuración de los tokens a partir de las variables de entorno.
use vstd::prelude::*;
use vstd::string::StringExecFns;

use crate::auth::jwt::JwtConfig;

verus! {

/// Cadena no vacía de dígitos ASCII.
pub open spec fn son_digitos(s: Seq<char>) -> bool {
    s.len() > 0 && forall|i: int| 0 <= i < s.len() ==> '0' <= #[trigger] s[i] <= '9'
}

/// El valor de una cadena de dígitos decimales.
pub open spec fn valor_decimal(s: Seq<char>) -> nat
    decreases s.len(),
{
    if s.len() == 0 {
        0
    } else {
        valor_decimal(s.drop_last()) * 10 + (s.last() as nat - '0' as nat) as nat
    }
}

/// El entero que escribe la cadena: un signo opcional y dígitos decimales,
/// sin espacios; lo que `i64::from_str` acepta cuando el valor cabe.
pub open spec fn entero_de_texto(s: Seq<char>) -> Option<int> {
    if s.len() > 0 && s[0] == '-' && son_digitos(s.skip(1)) {
        Some(-valor_decimal(s.skip(1)))
    } else if s.len() > 0 && s[0] == '+' && son_digitos(s.skip(1)) {
        Some(valor_decimal(s.skip(1)) as int)
    } else if son_digitos(s) {
        Some(valor_decimal(s) as int)
    } else {
        None
    }
}

/// Lo que `str::parse::<i64>` da: el entero, si la cadena lo escribe y cabe.
pub open spec fn i64_de_texto(s: Seq<char>) -> Option<i64> {
    match entero_de_texto(s) {
        Some(v) => if i64::MIN <= v <= i64::MAX {
            Some(v as i64)
        } else {
            None
        },
        None => None,
    }
}

proof fn lema_valor_crece(s: Seq<char>, c: char)
    requires
        '0' <= c <= '9',
    ensures
        valor_decimal(s.push(c)) == valor_decimal(s) * 10 + (c as nat - '0' as nat),
        valor_decimal(s.push(c)) >= valor_decimal(s),
{
    assert(s.push(c).drop_last() =~= s);
}

/// Lee un entero de 64 bits escrito en decimal, como `str::parse::<i64>`.
pub fn parsear_i64(texto: &str) -> (r: Option<i64>)
    ensures
        r == i64_de_texto(texto@),
{
    let n = texto.unicode_len();
    if n == 0 {
        return None;
    }
    let primero = texto.get_char(0);
    let negativo = primero == '-';
    let inicio: usize = if primero == '-' || primero == '+' {
        1
    } else {
        0
    };
    if inicio == n {
        assert(!son_digitos(texto@.skip(1)));
        assert(!son_digitos(texto@)) by {
            assert(texto@[0] == primero);
        }
        return None;
    }
    let ghost cifras = texto@.skip(inicio as int);
    assert(inicio == 1 ==> texto@.skip(1) == cifras);
    assert(inicio == 0 ==> texto@ =~= cifras);
    // Magnitud acumulada, saturada apenas pasa de 2^63.
    let limite: u64 = 0x8000_0000_0000_0000;
    let mut acumulado: u64 = 0;
    let mut i: usize = inicio;
    assert(texto@.subrange(inicio as int, inicio as int) =~= Seq::<char>::empty());
    while i < n
        invariant
            n == texto@.len(),
            inicio <= i <= n,
            inicio < n,
            cifras == texto@.skip(inicio as int),
            limite == 0x8000_0000_0000_0000u64,
            forall|k: int| inicio <= k < i ==> '0' <= #[trigger] texto@[k] <= '9',
            valor_decimal(texto@.subrange(inicio as int, i as int)) <= limite ==> acumulado
                == valor_decimal(texto@.subrange(inicio as int, i as int)),
            valor_decimal(texto@.subrange(inicio as int, i as int)) > limite ==> acumulado == limite
                + 1,
            acumulado <= limite + 1,
            texto@[0] == primero,
            negativo == (primero == '-'),
            inicio == 1 <==> (primero == '-' || primero == '+'),
            inicio <= 1,
        decreases n - i,
    {
        let c = texto.get_char(i);
        if c < '0' || c > '9' {
            assert(!son_digitos(cifras)) by {
                assert(cifras[i - inicio] == c);
            }
            assert(!son_digitos(texto@)) by {
                if inicio == 1 {
                    assert(texto@[0] == primero);
                }
            }
            return None;
        }
        let ghost antes = texto@.subrange(inicio as int, i as int);
        assert(texto@.subrange(inicio as int, i + 1) =~= antes.push(c));
        proof {
            lema_valor_crece(antes, c);
        }
        let d: u64 = (c as u32 - '0' as u32) as u64;
        let viejo = acumulado;
        if viejo > limite {
        } else if viejo > (limite - d) / 10 {
            acumulado = limite + 1;
            assert(viejo * 10 + d > limite) by (nonlinear_arith)
                requires
                    viejo > (limite - d) / 10,
                    d <= 9,
                    limite == 0x8000_0000_0000_0000u64,
            ;
        } else {
            assert(viejo * 10 + d <= limite) by (nonlinear_arith)
                requires
                    viejo <= (limite - d) / 10,
                    d <= 9,
                    limite == 0x8000_0000_0000_0000u64,
            ;
            acumulado = viejo * 10 + d;
        }
        i += 1;
    }
    assert(texto@.subrange(inicio as int, n as int) =~= cifras);
    assert(son_digitos(cifras)) by {
        assert forall|k: int| 0 <= k < cifras.len() implies '0' <= #[trigger] cifras[k] <= '9' by {
            assert(cifras[k] == texto@[k + inicio]);
        }
    }
    if negativo {
        if acumulado > limite {
            None
        } else if acumulado == limite {
            Some(i64::MIN)
        } else {
            Some(-(acumulado as i64))
        }
    } else {
        if acumulado >= limite {
            None
        } else {
            assert(primero != '-');
            Some(acumulado as i64)
        }
    }
}

/// Por qué no se pudo armar la configuración.
#[derive(Debug, PartialEq, Eq)]
pub enum FalloConfiguracion {
    /// Falta una variable obligatoria; el mensaje la nombra.
    Falta(String),
    /// Una vigencia no es un número; el mensaje la nombra.
    NoEsNumero(String),
}

/// La configuración que se arma con los valores leídos: los secretos son
/// obligatorios; las vigencias valen 24 horas y 30 días si faltan; el emisor,
/// "myapp".
pub open spec fn configuracion_de(
    access: Option<Seq<char>>,
    refresh: Option<Seq<char>>,
    horas: Option<Seq<char>>,
    dias: Option<Seq<char>>,
    issuer: Option<Seq<char>>,
) -> Option<(Seq<char>, Seq<char>, i64, i64, Seq<char>)> {
    let h = i64_de_texto(texto_o_defecto(horas, "24"@));
    let d = i64_de_texto(texto_o_defecto(dias, "30"@));
    match (access, refresh, h, d) {
        (Some(a), Some(r), Some(h), Some(d)) => Some(
            (a, r, h, d, texto_o_defecto(issuer, "myapp"@)),
        ),
        _ => None,
    }
}

/// El texto leído, o el de por defecto si no se leyó ninguno.
pub open spec fn texto_o_defecto(valor: Option<Seq<char>>, defecto: Seq<char>) -> Seq<char> {
    match valor {
        Some(v) => v,
        None => defecto,
    }
}

/// Un texto opcional visto como secuencia de caracteres.
pub open spec fn opt_vista(o: Option<String>) -> Option<Seq<char>> {
    match o {
        Some(s) => Some(s@),
        None => None,
    }
}

fn texto_o(valor: Option<String>, defecto: &str) -> (r: String)
    ensures
        r@ == texto_o_defecto(opt_vista(valor), defecto@),
{
    match valor {
        Some(v) => v,
        None => String::from_str(defecto),
    }
}

/// Arma la configuración de los tokens con los valores leídos del entorno,
/// en el orden en que se revisan: secreto de acceso, secreto de refresco,
/// horas, días.
pub fn cargar_configuracion(
    access: Option<String>,
    refresh: Option<String>,
    horas: Option<String>,
    dias: Option<String>,
    issuer: Option<String>,
) -> (r: Result<JwtConfig, FalloConfiguracion>)
    ensures
        ({
            let c = configuracion_de(
                opt_vista(access),
                opt_vista(refresh),
                opt_vista(horas),
                opt_vista(dias),
                opt_vista(issuer),
            );
            match r {
                Ok(cfg) => c == Some(
                    (
                        cfg.access_token_secret@,
                        cfg.refresh_token_secret@,
                        cfg.access_token_expiry,
                        cfg.refresh_token_expiry,
                        cfg.issuer@,
                    ),
                ),
                Err(_) => c is None,
            }
        }),
        access is None ==> (r matches Err(FalloConfiguracion::Falta(m)) && m@
            == "JWT_ACCESS_SECRET debe estar configurado"@),
        access is Some && refresh is None ==> (r matches Err(FalloConfiguracion::Falta(m)) && m@
            == "JWT_REFRESH_SECRET debe estar configurado"@),
        access is Some && refresh is Some && i64_de_texto(texto_o_defecto(opt_vista(horas), "24"@))
            is None ==> (r matches Err(FalloConfiguracion::NoEsNumero(m)) && m@
            == "JWT_ACCESS_EXPIRY_HOURS debe ser un número"@),
        access is Some && refresh is Some && i64_de_texto(texto_o_defecto(opt_vista(horas), "24"@))
            is Some && i64_de_texto(texto_o_defecto(opt_vista(dias), "30"@)) is None ==> (
        r matches Err(FalloConfiguracion::NoEsNumero(m)) && m@
            == "JWT_REFRESH_EXPIRY_DAYS debe ser un número"@),
{
    proof {
        reveal_strlit("24");
        reveal_strlit("30");
    }
    proof {
        reveal_strlit("myapp");
    }
    let access_token_secret = match access {
        Some(a) => a,
        None => return Err(FalloConfiguracion::Falta(String::from_str("JWT_ACCESS_SECRET debe estar configurado"))),
    };
    let refresh_token_secret = match refresh {
        Some(r) => r,
        None => return Err(FalloConfiguracion::Falta(String::from_str("JWT_REFRESH_SECRET debe estar configurado"))),
    };
    let texto_horas = texto_o(horas, "24");
    let access_token_expiry = match parsear_i64(texto_horas.as_str()) {
        Some(h) => h,
        None => return Err(FalloConfiguracion::NoEsNumero(String::from_str("JWT_ACCESS_EXPIRY_HOURS debe ser un número"))),
    };
    let texto_dias = texto_o(dias, "30");
    let refresh_token_expiry = match parsear_i64(texto_dias.as_str()) {
        Some(d) => d,
        None => return Err(FalloConfiguracion::NoEsNumero(String::from_str("JWT_REFRESH_EXPIRY_DAYS debe ser un número"))),
    };
    let issuer = texto_o(issuer, "myapp");
    Ok(JwtConfig { access_token_secret, refresh_token_secret, access_token_expiry, refresh_token_expiry, issuer })
}

} // verus!
