use vstd::prelude::*;

verus! {

/// How switching on LAN access went.
pub enum LanSwitch {
    /// LAN access was switched off.
    Off,
    /// It was switched on, and the forwarder gave its address and token (`None` where it
    /// could not start, or no LAN address or token could be had).
    On(Option<(String, String)>),
    /// It was switched on, but the server manager was not ready.
    NoManager,
}

/// The title and text of the dialog after LAN access was switched.
pub open spec fn lan_switch_text(s: LanSwitch) -> (Seq<char>, Seq<char>) {
    match s {
        LanSwitch::Off => ("局域网访问"@, "已关闭局域网访问。"@),
        LanSwitch::On(Some((url, token))) => (
            "局域网访问已开启"@,
            "手机浏览器打开：\n"@ + url@ + "/?token="@ + token@
                + "\n\n（首次需信任自签名证书；电脑 IP 变化后会自动重签）"@,
        ),
        LanSwitch::On(None) => ("开启失败"@, "无法获取局域网 IP 或生成证书，转发器未启动。"@),
        LanSwitch::NoManager => ("错误"@, "内部错误：服务未就绪。"@),
    }
}

/// Writes the dialog that reports how switching LAN access went: on success, the address a
/// phone opens, with the token in its query.
pub fn lan_switch_message(s: LanSwitch) -> (r: (String, String))
    ensures
        (r.0@, r.1@) == lan_switch_text(s),
{
    match s {
        LanSwitch::Off => (String::from_str("局域网访问"), String::from_str("已关闭局域网访问。")),
        LanSwitch::On(Some((url, token))) => (
            String::from_str("局域网访问已开启"),
            String::from_str("手机浏览器打开：\n").concat(url.as_str()).concat("/?token=").concat(
                token.as_str(),
            ).concat("\n\n（首次需信任自签名证书；电脑 IP 变化后会自动重签）"),
        ),
        LanSwitch::On(None) => (
            String::from_str("开启失败"),
            String::from_str("无法获取局域网 IP 或生成证书，转发器未启动。"),
        ),
        LanSwitch::NoManager => (String::from_str("错误"), String::from_str("内部错误：服务未就绪。")),
    }
}

} // verus!
