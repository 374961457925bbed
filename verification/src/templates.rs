//! The HTML bodies of the e-mails sent to members.
use vstd::prelude::*;
use crate::cupon::Cupon;
use crate::dates::{Date, dmy_text, format_dmy};
use crate::member::Member;

verus! {

/// The plain template up to the message.
pub const NORMAL_BEFORE_BODY: &'static str = r#"
        <html>
            <body style="font-family: Arial, sans-serif; background-color: #f9f9f9; color: #333;">
                <div style="max-width: 600px; margin: auto; background: #fff; border-radius: 8px; padding: 20px; box-shadow: 0 2px 6px rgba(0,0,0,0.1);">
                    <div style="text-align: center; margin-bottom: 20px;">
                        <img src="cid:logo.png" alt="Hotel Logo" style="width: 250px; height: auto;"/>
                    </div>
                    <p style="font-size: 16px; line-height: 1.6;">
                        "#;

/// The plain template after the message.
pub const NORMAL_AFTER_BODY: &'static str = r#"
                    </p>
                    <p style="font-size: 14px; color: #5b5b5b; text-align: center; margin-top: 30px;">
                        ¡Gracias por confiar en nosotros!<br/>
                        El equipo del Hotel Casa Peix.
                    </p>
                    <p style="font-size: 12px; color: #777; text-align: center;">
                        (Puede darse de baja en cualquier momento escribiendo un correo a infohotelcasapeix@gmail.com)
                    </p>
                </div>
            </body>
        </html>
        "#;

/// The birthday template up to the member's full name.
pub const BIRTHDAY_BEFORE_NAME: &'static str = r#"
        <html>
            <body style="font-family: Arial, sans-serif; background-color: #fff7e6; color: #333;">
                <div style="max-width: 600px; margin: auto; background: #fff; border-radius: 8px; padding: 30px; box-shadow: 0 2px 6px rgba(0,0,0,0.1); text-align: center;">
                    <img src="cid:logo.png" alt="Hotel Logo" style="width: 250px; height: auto;"/>
                    <h1 style="color: #d35400;">¡Feliz Cumpleaños, "#;

/// The birthday template after the member's full name.
pub const BIRTHDAY_AFTER_NAME: &'static str = r#"!</h1>
                    <p style="font-size: 16px; line-height: 1.6;">
                        Esperamos que este día esté lleno de alegría, momentos especiales y felicidad.
                    </p>
                    <p style="font-size: 16px; line-height: 1.6;">
                        Como muestra de nuestro cariño, queremos recordarle que siempre será bienvenido(a) en nuestro hotel.
                    </p>
                    <p style="font-size: 14px; color: #5b5b5b; margin-top: 30px;">
                        Con nuestros mejores deseos,<br/>
                        El equipo del Hotel Casa Peix.
                    </p>
                    <p style="font-size: 12px; color: #777; text-align: center;">
                        (Puede darse de baja en cualquier momento escribiendo un correo a infohotelcasapeix@gmail.com)
                    </p>
                </div>
            </body>
        </html>
        "#;

/// The coupon template up to the member's name.
pub const CUPON_BEFORE_NAME: &'static str = r#"
        <html>
            <body style="font-family: Arial, sans-serif; background-color: #f4f9ff; color: #333;">
                <div style="max-width: 600px; margin: auto; background: #fff; border-radius: 8px; padding: 20px; box-shadow: 0 2px 6px rgba(0,0,0,0.1);">
                    <div style="text-align: center; margin-bottom: 20px;">
                        <img src="cid:logo.png" alt="Hotel Logo" style="width: 250px; height: auto;"/>
                    </div>
                    <h2 style="color: #2980b9; text-align: center;">¡Estimado(a) "#;

/// The coupon template between the name and the message.
pub const CUPON_BEFORE_BODY: &'static str = r#", tenemos algo especial para usted!</h2>
                    <p style="font-size: 16px; line-height: 1.6; text-align: center;">
                        "#;

/// The coupon template between the message and the code.
pub const CUPON_BEFORE_CODE: &'static str = r#"
                    </p>
                    <div style="background: #eaf4ff; border: 2px dashed #2980b9; padding: 15px; text-align: center; font-size: 18px; margin: 20px 0;">
                        Código de Cupón: <strong>"#;

/// The coupon template between the code and the description.
pub const CUPON_BEFORE_DESCRIPTION: &'static str = r#"</strong><br/>
                        Descripción: <strong>"#;

/// The coupon template between the description and the expiry date.
pub const CUPON_BEFORE_DATE: &'static str = r#"</strong><br/>
                        Válido hasta: <strong>"#;

/// The coupon template after the expiry date.
pub const CUPON_AFTER_DATE: &'static str = r#"</strong>
                    </div>
                    <p style="font-size: 14px; color: #5b5b5b; text-align: center;">
                        ¡Aproveche esta oportunidad!<br/>
                        El equipo del Hotel Casa Peix.
                    </p>
                    <p style="font-size: 12px; color: #777; text-align: center;">
                        (Puede darse de baja en cualquier momento escribiendo un correo a infohotelcasapeix@gmail.com)
                    </p>
                    <p style="font-size: 10px; color: #5b5b5b; text-align: center;">
                        El establecimiento se reserva el derecho a no admitir cualquier cupón independientemente de su fecha de caducidad
                    </p>
                </div>
            </body>
        </html>
        "#;

/// What the coupon template shows in place of an unknown expiry date.
pub const UNKNOWN_DATE: &'static str = "Error, fecha desconocida";

/// The plain e-mail around a message.
pub open spec fn normal_styled(body: Seq<char>) -> Seq<char> {
    NORMAL_BEFORE_BODY@ + body + NORMAL_AFTER_BODY@
}

/// The birthday e-mail for a member.
pub open spec fn birthday_styled(member: Member) -> Seq<char> {
    BIRTHDAY_BEFORE_NAME@ + member.full_name() + BIRTHDAY_AFTER_NAME@
}

/// The expiry date as the coupon template shows it.
pub open spec fn expiry_text(d: Option<Date>) -> Seq<char> {
    match d {
        Some(x) => dmy_text(x),
        None => UNKNOWN_DATE@,
    }
}

/// The coupon e-mail: the member's name, the message, and the coupon's
/// code, description and expiry date.
pub open spec fn cupon_styled(body: Seq<char>, member: Member, cupon: Cupon) -> Seq<char> {
    cupon_parts_styled(body, member, cupon.code@, cupon.description@, cupon.expires_at)
}

/// The coupon e-mail, from the coupon's code, description and expiry date.
pub open spec fn cupon_parts_styled(
    body: Seq<char>,
    member: Member,
    code: Seq<char>,
    description: Seq<char>,
    expires_at: Option<Date>,
) -> Seq<char> {
    CUPON_BEFORE_NAME@ + member.name@ + CUPON_BEFORE_BODY@ + body + CUPON_BEFORE_CODE@ + code
        + CUPON_BEFORE_DESCRIPTION@ + description + CUPON_BEFORE_DATE@ + expiry_text(expires_at)
        + CUPON_AFTER_DATE@
}

/// The plain HTML e-mail wrapped around a message.
pub fn get_normal_styled(email_body: String) -> (r: String)
    ensures
        r@ == normal_styled(email_body@),
{
    let mut s = String::from_str(NORMAL_BEFORE_BODY);
    s.append(email_body.as_str());
    s.append(NORMAL_AFTER_BODY);
    s
}

/// The HTML birthday e-mail for a member, addressed by full name.
pub fn get_birthday_styled(member: &Member) -> (r: String)
    ensures
        r@ == birthday_styled(*member),
{
    let mut s = String::from_str(BIRTHDAY_BEFORE_NAME);
    let name = member.get_full_name();
    s.append(name.as_str());
    s.append(BIRTHDAY_AFTER_NAME);
    s
}

/// The HTML coupon e-mail for a member.
pub fn get_cupon_styled(email_body: String, member: &Member, cupon: &Cupon) -> (r: String)
    ensures
        r@ == cupon_styled(email_body@, *member, *cupon),
{
    let mut s = String::from_str(CUPON_BEFORE_NAME);
    s.append(member.name.as_str());
    s.append(CUPON_BEFORE_BODY);
    s.append(email_body.as_str());
    s.append(CUPON_BEFORE_CODE);
    s.append(cupon.code.as_str());
    s.append(CUPON_BEFORE_DESCRIPTION);
    s.append(cupon.description.as_str());
    s.append(CUPON_BEFORE_DATE);
    let date = match &cupon.expires_at {
        Some(d) => format_dmy(d),
        None => String::from_str(UNKNOWN_DATE),
    };
    s.append(date.as_str());
    s.append(CUPON_AFTER_DATE);
    s
}

} // verus!
