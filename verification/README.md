# kraken_cli

The verified core of a command-line client and autonomous paper-trading bot
for the Kraken exchange, written in Verus.

- `src/` is the library, checked by Verus:
  - `errors`: error categories, the errors built from Kraken's error strings,
    and their messages;
  - `config`: the configuration model, masking and redaction of secrets, the
    location of the config file, credential precedence (flag > env > config);
  - `commands::auth`: where the secrets of `auth set` come from, what
    `auth show` displays;
  - `bot`: the trading loop's kill switch and candidate limit, the strategies'
    signals (LLM sentiment with a confidence threshold, SMA crossover), the
    cleaning of the LLM's reply, news categories and fallback titles, the
    screener's selection of USD markets, Telegram settings and update offsets;
  - `text`: character-level string helpers.
- `app/` holds what Verus does not check: the config file and environment,
  stdin and prompts, HTTP clients, the dashboard, and the indicators computed
  on floating-point prices.
- `tests/` runs the library on concrete values.
