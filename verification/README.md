# k-ruoka-mcp

An MCP server that manages one K-Plussa account's [K-Ruoka](https://www.k-ruoka.fi)
shopping cart: read it, add items, change quantities, remove items, empty it. It drives a
real, installed Chrome. There is no checkout: nothing here can place an order. Searching the
catalogue, by `search_products` and `search_stores`, is not part of it.

The logic is a Verus library; what it promises is stated in `requires` and `ensures` and
proved.

- `src/browser/basket.rs`: the cart operations, as steps between request and answer
- `src/browser/response.rs`: what a raw answer means
- `src/browser/script.rs`: the script that makes a request from inside the shop's page
- `src/browser/session.rs`: when a browser is launched, replaced or refused, and what is
  tried again
- `src/browser/page.rs`, `limiter.rs`, `chrome.rs`, `profile.rs`: page clearance, request
  spacing, which Chrome and as what, where the login is kept
- `src/login.rs`, `src/login_flow.rs`: signing in by hand, and driving that from the server
- `src/mcp/tools.rs`: the tools' arguments and answers
- `src/types.rs`, `amount.rs`, `json.rs`, `text.rs`: the data underneath
- `src/probe.rs`: the exploration tools' command lines

`app/` is the program around it: the command line, the browser, the child processes and the
protocol.

Quantities and prices are doubles, held by their bits; a quantity also carries the two texts
it is written as, which whoever makes it supplies.
