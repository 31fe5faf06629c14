use vstd::prelude::*;
use crate::connection::SniStrategy;
use crate::local_agent::LocalAgentSettings;
use crate::state::Protocol;

verus! {

/// How the VPN client picks TLS server names for stealth connections.
pub enum TlsSniStrategy {
    /// A random name for each connection.
    Random,
    /// A name taken from this list.
    List(Vec<String>),
}

/// The mathematical content of a [TlsSniStrategy].
pub enum TlsSniStrategyView {
    Random,
    List(Seq<Seq<char>>),
}

impl View for TlsSniStrategy {
    type V = TlsSniStrategyView;

    open spec fn view(&self) -> TlsSniStrategyView {
        match self {
            TlsSniStrategy::Random => TlsSniStrategyView::Random,
            TlsSniStrategy::List(l) => TlsSniStrategyView::List(Seq::new(l@.len(), |i: int| l@[i]@)),
        }
    }
}

/// The settings handed to the VPN client for a local agent session.
pub struct ClientSettings {
    /// The VPN protocols the client may use.
    pub authorized_protocols: Vec<Protocol>,
    /// Where TLS server names come from.
    pub tls_snis: TlsSniStrategy,
    /// The session settings asked of the local agent.
    pub session_settings: LocalAgentSettings,
}

/// The mathematical content of a [ClientSettings].
pub struct ClientSettingsView {
    pub authorized_protocols: Seq<Protocol>,
    pub tls_snis: TlsSniStrategyView,
    pub session_settings: LocalAgentSettings,
}

impl View for ClientSettings {
    type V = ClientSettingsView;

    open spec fn view(&self) -> ClientSettingsView {
        ClientSettingsView {
            authorized_protocols: self.authorized_protocols@,
            tls_snis: self.tls_snis@,
            session_settings: self.session_settings,
        }
    }
}

/// The server names of the most visited sites, used by the "top" strategy.
pub open spec fn top_sni_urls() -> Seq<Seq<char>> {
    Seq::empty()
        .push("accounts.google.com"@)
        .push("activity.windows.com"@)
        .push("analytics.apis.mcafee.com"@)
        .push("android.apis.google.com"@)
        .push("android.googleapis.com"@)
        .push("api.account.samsung.com"@)
        .push("api.accounts.firefox.com"@)
        .push("api.accuweather.com"@)
        .push("api.amazon.com"@)
        .push("api.browser.yandex.net"@)
        .push("api.ipify.org"@)
        .push("api.onedrive.com"@)
        .push("api.reasonsecurity.com"@)
        .push("api.samsungcloud.com"@)
        .push("api.sec.intl.miui.com"@)
        .push("api.vk.com"@)
        .push("api.weather.com"@)
        .push("app-site-association.cdn-apple.com"@)
        .push("apps.mzstatic.com"@)
        .push("assets.msn.com"@)
        .push("backup.googleapis.com"@)
        .push("brave-core-ext.s3.brave.com"@)
        .push("caldav.calendar.yahoo.com"@)
        .push("cc-api-data.adobe.io"@)
        .push("cdn.ampproject.org"@)
        .push("cdn.cookielaw.org"@)
        .push("client.wns.windows.com"@)
        .push("cloudflare.com"@)
        .push("cloudflare-dns.com"@)
        .push("cloudflare-ech.com"@)
        .push("config.extension.grammarly.com"@)
        .push("connectivitycheck.android.com"@)
        .push("connectivitycheck.gstatic.com"@)
        .push("courier.push.apple.com"@)
        .push("crl.globalsign.com"@)
        .push("dc1-file.ksn.kaspersky-labs.com"@)
        .push("dl.google.com"@)
        .push("dns.google"@)
        .push("dns.quad9.net"@)
        .push("doh.cleanbrowsing.org"@)
        .push("doh.dns.apple.com"@)
        .push("doh.opendns.com"@)
        .push("doh.pub"@)
        .push("ds.kaspersky.com"@)
        .push("ecs.office.com"@)
        .push("edge.microsoft.com"@)
        .push("events.gfe.nvidia.com"@)
        .push("excess.duolingo.com"@)
        .push("firefox.settings.services.mozilla.com"@)
        .push("fonts.googleapis.com"@)
        .push("fonts.gstatic.com"@)
        .push("gateway-asset.icloud-content.com"@)
        .push("gateway.icloud.com"@)
        .push("gdmf.apple.com"@)
        .push("github.com"@)
        .push("go.microsoft.com"@)
        .push("go-updater.brave.com"@)
        .push("graph.microsoft.com"@)
        .push("gs-loc.apple.com"@)
        .push("gtglobal.intl.miui.com"@)
        .push("hcaptcha.com"@)
        .push("imap.gmail.com"@)
        .push("imap-mail.outlook.com"@)
        .push("imap.mail.yahoo.com"@)
        .push("in.appcenter.ms"@)
        .push("ipmcdn.avast.com"@)
        .push("itunes.apple.com"@)
        .push("loc.map.baidu.com"@)
        .push("login.live.com"@)
        .push("login.microsoftonline.com"@)
        .push("m.media-amazon.com"@)
        .push("mobile.events.data.microsoft.com"@)
        .push("mozilla.cloudflare-dns.com"@)
        .push("mtalk.google.com"@)
        .push("nimbus.bitdefender.net"@)
        .push("ocsp2.apple.com"@)
        .push("outlook.office365.com"@)
        .push("play-fe.googleapis.com"@)
        .push("play.googleapis.com"@)
        .push("play.samsungcloud.com"@)
        .push("raw.githubusercontent.com"@)
        .push("s3.amazonaws.com"@)
        .push("safebrowsing.googleapis.com"@)
        .push("s.alicdn.com"@)
        .push("self.events.data.microsoft.com"@)
        .push("settings-win.data.microsoft.com"@)
        .push("setup.icloud.com"@)
        .push("sirius.mwbsys.com"@)
        .push("spoc.norton.com"@)
        .push("ssl.gstatic.com"@)
        .push("translate.goo"@)
        .push("unpkg.com"@)
        .push("update.googleapis.com"@)
        .push("weatherapi.intl.xiaomi.com"@)
        .push("weatherkit.apple.com"@)
        .push("westus-0.in.applicationinsights.azure.com"@)
        .push("www.googleapis.com"@)
        .push("www.gstatic.com"@)
        .push("www.msftconnecttest.com"@)
        .push("www.msftncsi.com"@)
        .push("www.ntppool.org"@)
        .push("www.pool.ntp.org"@)
        .push("www.recaptcha.net"@)
}

/// The texts of a sequence of strings.
pub open spec fn texts(v: Seq<String>) -> Seq<Seq<char>> {
    Seq::new(v.len(), |i: int| v[i]@)
}

fn push_text(v: &mut Vec<String>, s: &str)
    ensures
        texts(final(v)@) == texts(old(v)@).push(s@),
{
    v.push(s.to_string());
    assert(texts(v@) =~= texts(old(v)@).push(s@));
}

/// The server names of [top_sni_urls], as strings.
pub fn top_sni_strategy_urls() -> (r: Vec<String>)
    ensures
        texts(r@) == top_sni_urls(),
{
    let mut v: Vec<String> = Vec::new();
    let ghost mut g: Seq<Seq<char>> = Seq::empty();
    assert(texts(v@) =~= g);
    push_text(&mut v, "accounts.google.com");
    proof { g = g.push("accounts.google.com"@); }
    assert(texts(v@) == g);
    push_text(&mut v, "activity.windows.com");
    proof { g = g.push("activity.windows.com"@); }
    assert(texts(v@) == g);
    push_text(&mut v, "analytics.apis.mcafee.com");
    proof { g = g.push("analytics.apis.mcafee.com"@); }
    assert(texts(v@) == g);
    push_text(&mut v, "android.apis.google.com");
    proof { g = g.push("android.apis.google.com"@); }
    assert(texts(v@) == g);
    push_text(&mut v, "android.googleapis.com");
    proof { g = g.push("android.googleapis.com"@); }
    assert(texts(v@) == g);
    push_text(&mut v, "api.account.samsung.com");
    proof { g = g.push("api.account.samsung.com"@); }
    assert(texts(v@) == g);
    push_text(&mut v, "api.accounts.firefox.com");
    proof { g = g.push("api.accounts.firefox.com"@); }
    assert(texts(v@) == g);
    push_text(&mut v, "api.accuweather.com");
    proof { g = g.push("api.accuweather.com"@); }
    assert(texts(v@) == g);
    push_text(&mut v, "api.amazon.com");
    proof { g = g.push("api.amazon.com"@); }
    assert(texts(v@) == g);
    push_text(&mut v, "api.browser.yandex.net");
    proof { g = g.push("api.browser.yandex.net"@); }
    assert(texts(v@) == g);
    push_text(&mut v, "api.ipify.org");
    proof { g = g.push("api.ipify.org"@); }
    assert(texts(v@) == g);
    push_text(&mut v, "api.onedrive.com");
    proof { g = g.push("api.onedrive.com"@); }
    assert(texts(v@) == g);
    push_text(&mut v, "api.reasonsecurity.com");
    proof { g = g.push("api.reasonsecurity.com"@); }
    assert(texts(v@) == g);
    push_text(&mut v, "api.samsungcloud.com");
    proof { g = g.push("api.samsungcloud.com"@); }
    assert(texts(v@) == g);
    push_text(&mut v, "api.sec.intl.miui.com");
    proof { g = g.push("api.sec.intl.miui.com"@); }
    assert(texts(v@) == g);
    push_text(&mut v, "api.vk.com");
    proof { g = g.push("api.vk.com"@); }
    assert(texts(v@) == g);
    push_text(&mut v, "api.weather.com");
    proof { g = g.push("api.weather.com"@); }
    assert(texts(v@) == g);
    push_text(&mut v, "app-site-association.cdn-apple.com");
    proof { g = g.push("app-site-association.cdn-apple.com"@); }
    assert(texts(v@) == g);
    push_text(&mut v, "apps.mzstatic.com");
    proof { g = g.push("apps.mzstatic.com"@); }
    assert(texts(v@) == g);
    push_text(&mut v, "assets.msn.com");
    proof { g = g.push("assets.msn.com"@); }
    assert(texts(v@) == g);
    push_text(&mut v, "backup.googleapis.com");
    proof { g = g.push("backup.googleapis.com"@); }
    assert(texts(v@) == g);
    push_text(&mut v, "brave-core-ext.s3.brave.com");
    proof { g = g.push("brave-core-ext.s3.brave.com"@); }
    assert(texts(v@) == g);
    push_text(&mut v, "caldav.calendar.yahoo.com");
    proof { g = g.push("caldav.calendar.yahoo.com"@); }
    assert(texts(v@) == g);
    push_text(&mut v, "cc-api-data.adobe.io");
    proof { g = g.push("cc-api-data.adobe.io"@); }
    assert(texts(v@) == g);
    push_text(&mut v, "cdn.ampproject.org");
    proof { g = g.push("cdn.ampproject.org"@); }
    assert(texts(v@) == g);
    push_text(&mut v, "cdn.cookielaw.org");
    proof { g = g.push("cdn.cookielaw.org"@); }
    assert(texts(v@) == g);
    push_text(&mut v, "client.wns.windows.com");
    proof { g = g.push("client.wns.windows.com"@); }
    assert(texts(v@) == g);
    push_text(&mut v, "cloudflare.com");
    proof { g = g.push("cloudflare.com"@); }
    assert(texts(v@) == g);
    push_text(&mut v, "cloudflare-dns.com");
    proof { g = g.push("cloudflare-dns.com"@); }
    assert(texts(v@) == g);
    push_text(&mut v, "cloudflare-ech.com");
    proof { g = g.push("cloudflare-ech.com"@); }
    assert(texts(v@) == g);
    push_text(&mut v, "config.extension.grammarly.com");
    proof { g = g.push("config.extension.grammarly.com"@); }
    assert(texts(v@) == g);
    push_text(&mut v, "connectivitycheck.android.com");
    proof { g = g.push("connectivitycheck.android.com"@); }
    assert(texts(v@) == g);
    push_text(&mut v, "connectivitycheck.gstatic.com");
    proof { g = g.push("connectivitycheck.gstatic.com"@); }
    assert(texts(v@) == g);
    push_text(&mut v, "courier.push.apple.com");
    proof { g = g.push("courier.push.apple.com"@); }
    assert(texts(v@) == g);
    push_text(&mut v, "crl.globalsign.com");
    proof { g = g.push("crl.globalsign.com"@); }
    assert(texts(v@) == g);
    push_text(&mut v, "dc1-file.ksn.kaspersky-labs.com");
    proof { g = g.push("dc1-file.ksn.kaspersky-labs.com"@); }
    assert(texts(v@) == g);
    push_text(&mut v, "dl.google.com");
    proof { g = g.push("dl.google.com"@); }
    assert(texts(v@) == g);
    push_text(&mut v, "dns.google");
    proof { g = g.push("dns.google"@); }
    assert(texts(v@) == g);
    push_text(&mut v, "dns.quad9.net");
    proof { g = g.push("dns.quad9.net"@); }
    assert(texts(v@) == g);
    push_text(&mut v, "doh.cleanbrowsing.org");
    proof { g = g.push("doh.cleanbrowsing.org"@); }
    assert(texts(v@) == g);
    push_text(&mut v, "doh.dns.apple.com");
    proof { g = g.push("doh.dns.apple.com"@); }
    assert(texts(v@) == g);
    push_text(&mut v, "doh.opendns.com");
    proof { g = g.push("doh.opendns.com"@); }
    assert(texts(v@) == g);
    push_text(&mut v, "doh.pub");
    proof { g = g.push("doh.pub"@); }
    assert(texts(v@) == g);
    push_text(&mut v, "ds.kaspersky.com");
    proof { g = g.push("ds.kaspersky.com"@); }
    assert(texts(v@) == g);
    push_text(&mut v, "ecs.office.com");
    proof { g = g.push("ecs.office.com"@); }
    assert(texts(v@) == g);
    push_text(&mut v, "edge.microsoft.com");
    proof { g = g.push("edge.microsoft.com"@); }
    assert(texts(v@) == g);
    push_text(&mut v, "events.gfe.nvidia.com");
    proof { g = g.push("events.gfe.nvidia.com"@); }
    assert(texts(v@) == g);
    push_text(&mut v, "excess.duolingo.com");
    proof { g = g.push("excess.duolingo.com"@); }
    assert(texts(v@) == g);
    push_text(&mut v, "firefox.settings.services.mozilla.com");
    proof { g = g.push("firefox.settings.services.mozilla.com"@); }
    assert(texts(v@) == g);
    push_text(&mut v, "fonts.googleapis.com");
    proof { g = g.push("fonts.googleapis.com"@); }
    assert(texts(v@) == g);
    push_text(&mut v, "fonts.gstatic.com");
    proof { g = g.push("fonts.gstatic.com"@); }
    assert(texts(v@) == g);
    push_text(&mut v, "gateway-asset.icloud-content.com");
    proof { g = g.push("gateway-asset.icloud-content.com"@); }
    assert(texts(v@) == g);
    push_text(&mut v, "gateway.icloud.com");
    proof { g = g.push("gateway.icloud.com"@); }
    assert(texts(v@) == g);
    push_text(&mut v, "gdmf.apple.com");
    proof { g = g.push("gdmf.apple.com"@); }
    assert(texts(v@) == g);
    push_text(&mut v, "github.com");
    proof { g = g.push("github.com"@); }
    assert(texts(v@) == g);
    push_text(&mut v, "go.microsoft.com");
    proof { g = g.push("go.microsoft.com"@); }
    assert(texts(v@) == g);
    push_text(&mut v, "go-updater.brave.com");
    proof { g = g.push("go-updater.brave.com"@); }
    assert(texts(v@) == g);
    push_text(&mut v, "graph.microsoft.com");
    proof { g = g.push("graph.microsoft.com"@); }
    assert(texts(v@) == g);
    push_text(&mut v, "gs-loc.apple.com");
    proof { g = g.push("gs-loc.apple.com"@); }
    assert(texts(v@) == g);
    push_text(&mut v, "gtglobal.intl.miui.com");
    proof { g = g.push("gtglobal.intl.miui.com"@); }
    assert(texts(v@) == g);
    push_text(&mut v, "hcaptcha.com");
    proof { g = g.push("hcaptcha.com"@); }
    assert(texts(v@) == g);
    push_text(&mut v, "imap.gmail.com");
    proof { g = g.push("imap.gmail.com"@); }
    assert(texts(v@) == g);
    push_text(&mut v, "imap-mail.outlook.com");
    proof { g = g.push("imap-mail.outlook.com"@); }
    assert(texts(v@) == g);
    push_text(&mut v, "imap.mail.yahoo.com");
    proof { g = g.push("imap.mail.yahoo.com"@); }
    assert(texts(v@) == g);
    push_text(&mut v, "in.appcenter.ms");
    proof { g = g.push("in.appcenter.ms"@); }
    assert(texts(v@) == g);
    push_text(&mut v, "ipmcdn.avast.com");
    proof { g = g.push("ipmcdn.avast.com"@); }
    assert(texts(v@) == g);
    push_text(&mut v, "itunes.apple.com");
    proof { g = g.push("itunes.apple.com"@); }
    assert(texts(v@) == g);
    push_text(&mut v, "loc.map.baidu.com");
    proof { g = g.push("loc.map.baidu.com"@); }
    assert(texts(v@) == g);
    push_text(&mut v, "login.live.com");
    proof { g = g.push("login.live.com"@); }
    assert(texts(v@) == g);
    push_text(&mut v, "login.microsoftonline.com");
    proof { g = g.push("login.microsoftonline.com"@); }
    assert(texts(v@) == g);
    push_text(&mut v, "m.media-amazon.com");
    proof { g = g.push("m.media-amazon.com"@); }
    assert(texts(v@) == g);
    push_text(&mut v, "mobile.events.data.microsoft.com");
    proof { g = g.push("mobile.events.data.microsoft.com"@); }
    assert(texts(v@) == g);
    push_text(&mut v, "mozilla.cloudflare-dns.com");
    proof { g = g.push("mozilla.cloudflare-dns.com"@); }
    assert(texts(v@) == g);
    push_text(&mut v, "mtalk.google.com");
    proof { g = g.push("mtalk.google.com"@); }
    assert(texts(v@) == g);
    push_text(&mut v, "nimbus.bitdefender.net");
    proof { g = g.push("nimbus.bitdefender.net"@); }
    assert(texts(v@) == g);
    push_text(&mut v, "ocsp2.apple.com");
    proof { g = g.push("ocsp2.apple.com"@); }
    assert(texts(v@) == g);
    push_text(&mut v, "outlook.office365.com");
    proof { g = g.push("outlook.office365.com"@); }
    assert(texts(v@) == g);
    push_text(&mut v, "play-fe.googleapis.com");
    proof { g = g.push("play-fe.googleapis.com"@); }
    assert(texts(v@) == g);
    push_text(&mut v, "play.googleapis.com");
    proof { g = g.push("play.googleapis.com"@); }
    assert(texts(v@) == g);
    push_text(&mut v, "play.samsungcloud.com");
    proof { g = g.push("play.samsungcloud.com"@); }
    assert(texts(v@) == g);
    push_text(&mut v, "raw.githubusercontent.com");
    proof { g = g.push("raw.githubusercontent.com"@); }
    assert(texts(v@) == g);
    push_text(&mut v, "s3.amazonaws.com");
    proof { g = g.push("s3.amazonaws.com"@); }
    assert(texts(v@) == g);
    push_text(&mut v, "safebrowsing.googleapis.com");
    proof { g = g.push("safebrowsing.googleapis.com"@); }
    assert(texts(v@) == g);
    push_text(&mut v, "s.alicdn.com");
    proof { g = g.push("s.alicdn.com"@); }
    assert(texts(v@) == g);
    push_text(&mut v, "self.events.data.microsoft.com");
    proof { g = g.push("self.events.data.microsoft.com"@); }
    assert(texts(v@) == g);
    push_text(&mut v, "settings-win.data.microsoft.com");
    proof { g = g.push("settings-win.data.microsoft.com"@); }
    assert(texts(v@) == g);
    push_text(&mut v, "setup.icloud.com");
    proof { g = g.push("setup.icloud.com"@); }
    assert(texts(v@) == g);
    push_text(&mut v, "sirius.mwbsys.com");
    proof { g = g.push("sirius.mwbsys.com"@); }
    assert(texts(v@) == g);
    push_text(&mut v, "spoc.norton.com");
    proof { g = g.push("spoc.norton.com"@); }
    assert(texts(v@) == g);
    push_text(&mut v, "ssl.gstatic.com");
    proof { g = g.push("ssl.gstatic.com"@); }
    assert(texts(v@) == g);
    push_text(&mut v, "translate.goo");
    proof { g = g.push("translate.goo"@); }
    assert(texts(v@) == g);
    push_text(&mut v, "unpkg.com");
    proof { g = g.push("unpkg.com"@); }
    assert(texts(v@) == g);
    push_text(&mut v, "update.googleapis.com");
    proof { g = g.push("update.googleapis.com"@); }
    assert(texts(v@) == g);
    push_text(&mut v, "weatherapi.intl.xiaomi.com");
    proof { g = g.push("weatherapi.intl.xiaomi.com"@); }
    assert(texts(v@) == g);
    push_text(&mut v, "weatherkit.apple.com");
    proof { g = g.push("weatherkit.apple.com"@); }
    assert(texts(v@) == g);
    push_text(&mut v, "westus-0.in.applicationinsights.azure.com");
    proof { g = g.push("westus-0.in.applicationinsights.azure.com"@); }
    assert(texts(v@) == g);
    push_text(&mut v, "www.googleapis.com");
    proof { g = g.push("www.googleapis.com"@); }
    assert(texts(v@) == g);
    push_text(&mut v, "www.gstatic.com");
    proof { g = g.push("www.gstatic.com"@); }
    assert(texts(v@) == g);
    push_text(&mut v, "www.msftconnecttest.com");
    proof { g = g.push("www.msftconnecttest.com"@); }
    assert(texts(v@) == g);
    push_text(&mut v, "www.msftncsi.com");
    proof { g = g.push("www.msftncsi.com"@); }
    assert(texts(v@) == g);
    push_text(&mut v, "www.ntppool.org");
    proof { g = g.push("www.ntppool.org"@); }
    assert(texts(v@) == g);
    push_text(&mut v, "www.pool.ntp.org");
    proof { g = g.push("www.pool.ntp.org"@); }
    assert(texts(v@) == g);
    push_text(&mut v, "www.recaptcha.net");
    proof { g = g.push("www.recaptcha.net"@); }
    assert(texts(v@) == g);
    assert(g == top_sni_urls());
    v
}

/// The TLS server name source of a strategy.
pub open spec fn tls_sni_strategy_spec(s: SniStrategy) -> TlsSniStrategyView {
    match s {
        SniStrategy::Random => TlsSniStrategyView::Random,
        SniStrategy::Top => TlsSniStrategyView::List(top_sni_urls()),
    }
}

/// The TLS server name source of a strategy: random names, or the names of
/// the most visited sites.
pub fn tls_sni_strategy(s: &SniStrategy) -> (r: TlsSniStrategy)
    ensures
        r@ == tls_sni_strategy_spec(*s),
{
    match s {
        SniStrategy::Random => TlsSniStrategy::Random,
        SniStrategy::Top => {
            let l = top_sni_strategy_urls();
            assert(Seq::new(l@.len(), |i: int| l@[i]@) == texts(l@));
            TlsSniStrategy::List(l)
        },
    }
}

/// The protocols a local agent session may use.
pub open spec fn authorized_protocols() -> Seq<Protocol> {
    seq![Protocol::WireguardUdp, Protocol::WireguardTcp, Protocol::Stealth]
}

/// The client settings for session settings and a server name strategy.
pub open spec fn client_settings_spec(session_settings: LocalAgentSettings, s: SniStrategy) -> ClientSettingsView {
    ClientSettingsView {
        authorized_protocols: authorized_protocols(),
        tls_snis: tls_sni_strategy_spec(s),
        session_settings,
    }
}

/// The settings handed to the VPN client: WireGuard over UDP and TCP and
/// Stealth are allowed, server names follow the strategy, and the session
/// settings are the local agent settings.
pub fn pvpn_settings(session_settings: LocalAgentSettings, sni_strategy: &SniStrategy) -> (r: ClientSettings)
    ensures
        r@ == client_settings_spec(session_settings, *sni_strategy),
{
    let authorized = vec![Protocol::WireguardUdp, Protocol::WireguardTcp, Protocol::Stealth];
    assert(authorized@ =~= authorized_protocols());
    ClientSettings { authorized_protocols: authorized, tls_snis: tls_sni_strategy(sni_strategy), session_settings }
}

} // verus!
