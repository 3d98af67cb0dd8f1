//! The texts of the files that deploy the daemon.

use vstd::prelude::*;
use vstd::string::StringExecFns;
use crate::export::writable;
use crate::schedule::{cron_expression, cron_text};
use crate::text::{decimal_text, natural_text, push_decimal, push_natural};

verus! {

/// The arguments of the daemon in a command line: portfolio value without
/// decimal places, risk cap in percent with one, and the interval in
/// minutes.
pub open spec fn daemon_arguments(
    portfolio_value: int,
    risk_cap_percent: int,
    check_interval: u64,
) -> Seq<char> {
    "daemon --continuous --portfolio-value "@ + decimal_text(portfolio_value, 0)
        + " --risk-cap-percent "@ + decimal_text(risk_cap_percent, 1) + " --check-interval "@
        + natural_text(check_interval as nat)
}

/// Appends the arguments of the daemon.
fn push_daemon_arguments(
    s: &mut String,
    portfolio_value: i128,
    risk_cap_percent: i128,
    check_interval: u64,
)
    requires
        writable(portfolio_value),
        writable(risk_cap_percent),
    ensures
        final(s)@ == old(s)@ + daemon_arguments(
            portfolio_value as int,
            risk_cap_percent as int,
            check_interval,
        ),
{
    s.append("daemon --continuous --portfolio-value ");
    push_decimal(s, portfolio_value, 0);
    s.append(" --risk-cap-percent ");
    push_decimal(s, risk_cap_percent, 1);
    s.append(" --check-interval ");
    push_natural(s, check_interval as u128);
    proof {
        assert(final(s)@ =~= old(s)@ + daemon_arguments(
            portfolio_value as int,
            risk_cap_percent as int,
            check_interval,
        ));
    }
}

/// The unit that runs the daemon as a service.
pub open spec fn systemd_service_text(
    portfolio_value: int,
    risk_cap_percent: int,
    check_interval: u64,
) -> Seq<char> {
    "[Unit]\nDescription=Crypto Strategy Daemon\nAfter=network.target\n\n[Service]\nType=simple\nUser=crypto-strategy\nWorkingDirectory=/opt/crypto-strategy\nExecStart=/opt/crypto-strategy/target/release/crypto-strategy "@
        + daemon_arguments(portfolio_value, risk_cap_percent, check_interval)
        + "\nRestart=always\nRestartSec=10\nEnvironment=RUST_LOG=info\nEnvironment=COINGECKO_API_KEY=your_api_key_here\n\n[Install]\nWantedBy=multi-user.target"@
}

/// The unit that runs the daemon as a service.
pub fn systemd_service(portfolio_value: i128, risk_cap_percent: i128, check_interval: u64) -> (t:
    String)
    requires
        writable(portfolio_value),
        writable(risk_cap_percent),
    ensures
        t@ == systemd_service_text(
            portfolio_value as int,
            risk_cap_percent as int,
            check_interval,
        ),
{
    let mut t = "[Unit]\nDescription=Crypto Strategy Daemon\nAfter=network.target\n\n[Service]\nType=simple\nUser=crypto-strategy\nWorkingDirectory=/opt/crypto-strategy\nExecStart=/opt/crypto-strategy/target/release/crypto-strategy ".to_owned();
    push_daemon_arguments(&mut t, portfolio_value, risk_cap_percent, check_interval);
    t.append(
        "\nRestart=always\nRestartSec=10\nEnvironment=RUST_LOG=info\nEnvironment=COINGECKO_API_KEY=your_api_key_here\n\n[Install]\nWantedBy=multi-user.target",
    );
    t
}

/// The table of timed jobs that runs a cycle every `check_interval`
/// minutes and clears old logs once a week.
pub open spec fn cron_job_text(check_interval: u64) -> Seq<char> {
    "# Crypto Strategy Daemon - Run every "@ + natural_text(check_interval as nat)
        + " minutes\n"@ + cron_text(check_interval)
        + " /opt/crypto-strategy/target/release/crypto-strategy daemon --portfolio-value 100000 --risk-cap-percent 1.0 >> /var/log/crypto-strategy.log 2>&1\n\n# Optional: Clean old logs weekly\n0 2 * * 0 find /var/log/crypto-strategy.log -mtime +7 -delete"@
}

/// The table of timed jobs of the daemon.
pub fn cron_job(check_interval: u64) -> (t: String)
    ensures
        t@ == cron_job_text(check_interval),
{
    let mut t = "# Crypto Strategy Daemon - Run every ".to_owned();
    push_natural(&mut t, check_interval as u128);
    t.append(" minutes\n");
    t.append(cron_expression(check_interval));
    t.append(
        " /opt/crypto-strategy/target/release/crypto-strategy daemon --portfolio-value 100000 --risk-cap-percent 1.0 >> /var/log/crypto-strategy.log 2>&1\n\n# Optional: Clean old logs weekly\n0 2 * * 0 find /var/log/crypto-strategy.log -mtime +7 -delete",
    );
    t
}

/// The composition of containers that runs the daemon with its monitoring.
pub open spec fn docker_compose_text(
    portfolio_value: int,
    risk_cap_percent: int,
    check_interval: u64,
) -> Seq<char> {
    "version: '3.8'\n\nservices:\n  crypto-strategy:\n    build: .\n    container_name: crypto-strategy-daemon\n    restart: unless-stopped\n    environment:\n      - RUST_LOG=info\n      - COINGECKO_API_KEY=your_api_key_here\n    volumes:\n      - ./out:/app/out\n      - ./logs:/app/logs\n    command: "@
        + daemon_arguments(portfolio_value, risk_cap_percent, check_interval)
        + "\n    healthcheck:\n      test: [\"CMD\", \"cargo\", \"run\", \"--\", \"daemon\", \"--help\"]\n      interval: 5m\n      timeout: 10s\n      retries: 3\n      start_period: 30s\n\n  # Optional: Add monitoring with Prometheus/Grafana\n  prometheus:\n    image: prom/prometheus:latest\n    container_name: crypto-strategy-prometheus\n    ports:\n      - \"9090:9090\"\n    volumes:\n      - ./prometheus.yml:/etc/prometheus/prometheus.yml\n    restart: unless-stopped\n\n  grafana:\n    image: grafana/grafana:latest\n    container_name: crypto-strategy-grafana\n    ports:\n      - \"3000:3000\"\n    environment:\n      - GF_SECURITY_ADMIN_PASSWORD=admin\n    volumes:\n      - grafana-storage:/var/lib/grafana\n    restart: unless-stopped\n\nvolumes:\n  grafana-storage:"@
}

/// The composition of containers of the daemon.
pub fn docker_compose(portfolio_value: i128, risk_cap_percent: i128, check_interval: u64) -> (t:
    String)
    requires
        writable(portfolio_value),
        writable(risk_cap_percent),
    ensures
        t@ == docker_compose_text(portfolio_value as int, risk_cap_percent as int, check_interval),
{
    let mut t = "version: '3.8'\n\nservices:\n  crypto-strategy:\n    build: .\n    container_name: crypto-strategy-daemon\n    restart: unless-stopped\n    environment:\n      - RUST_LOG=info\n      - COINGECKO_API_KEY=your_api_key_here\n    volumes:\n      - ./out:/app/out\n      - ./logs:/app/logs\n    command: ".to_owned();
    push_daemon_arguments(&mut t, portfolio_value, risk_cap_percent, check_interval);
    t.append(
        "\n    healthcheck:\n      test: [\"CMD\", \"cargo\", \"run\", \"--\", \"daemon\", \"--help\"]\n      interval: 5m\n      timeout: 10s\n      retries: 3\n      start_period: 30s\n\n  # Optional: Add monitoring with Prometheus/Grafana\n  prometheus:\n    image: prom/prometheus:latest\n    container_name: crypto-strategy-prometheus\n    ports:\n      - \"9090:9090\"\n    volumes:\n      - ./prometheus.yml:/etc/prometheus/prometheus.yml\n    restart: unless-stopped\n\n  grafana:\n    image: grafana/grafana:latest\n    container_name: crypto-strategy-grafana\n    ports:\n      - \"3000:3000\"\n    environment:\n      - GF_SECURITY_ADMIN_PASSWORD=admin\n    volumes:\n      - grafana-storage:/var/lib/grafana\n    restart: unless-stopped\n\nvolumes:\n  grafana-storage:",
    );
    t
}

/// The summary of the portfolio of the daemon, written at the time whose
/// text is handed in.
pub open spec fn portfolio_summary_text(
    time: Seq<char>,
    portfolio_value: int,
    risk_cap_percent: int,
) -> Seq<char> {
    "=== PORTFOLIO SUMMARY - "@ + time + " ===\nPortfolio Value: $"@ + decimal_text(
        portfolio_value,
        0,
    ) + "\nRisk Cap per Position: "@ + decimal_text(risk_cap_percent, 1) + "%\nGenerated: "@
        + time
        + "\n\nRun 'cargo run -- daemon --help' for options\nRun 'cargo run -- trade' to see detailed playbooks\nRun 'cargo run -- analyze' to see strategy analysis\n"@
}

/// The summary of the portfolio of the daemon.
pub fn portfolio_summary(time: &str, portfolio_value: i128, risk_cap_percent: i128) -> (t: String)
    requires
        writable(portfolio_value),
        writable(risk_cap_percent),
    ensures
        t@ == portfolio_summary_text(time@, portfolio_value as int, risk_cap_percent as int),
{
    let mut t = "=== PORTFOLIO SUMMARY - ".to_owned();
    t.append(time);
    t.append(" ===\nPortfolio Value: $");
    push_decimal(&mut t, portfolio_value, 0);
    t.append("\nRisk Cap per Position: ");
    push_decimal(&mut t, risk_cap_percent, 1);
    t.append("%\nGenerated: ");
    t.append(time);
    t.append(
        "\n\nRun 'cargo run -- daemon --help' for options\nRun 'cargo run -- trade' to see detailed playbooks\nRun 'cargo run -- analyze' to see strategy analysis\n",
    );
    t
}

} // verus!
