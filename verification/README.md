# llm_load_balancer

An OpenAI-compatible load balancer in front of several LLM providers, with its
routing, failover and protocol translation verified with Verus.

- `src/` is the verified library:
  - `balancer`: the model table (which provider serves which model), the
    catalog of reported models, the round-robin counter and the default model;
    how a requested model is settled; the steps of the failover loop.
  - `routing`: the failover loop as a specification, and its laws: a model with
    a known provider is sent there exactly once, and a model without one is
    tried on every provider once, round-robin, with successive requests
    starting at successive providers.
  - `translate`: Anthropic messages requests to OpenAI chat requests and OpenAI
    answers back to Anthropic answers.
  - `proxy`: the body, URL and credentials of one attempt at a provider.
  - `images`: WebP data URIs inside requests turned into JPEG ones.
  - `listing`, `pages`: the model listings and the HTML pages.
  - `json`, `names`, `text`, `tables`, `models`: JSON documents, name order and
    sorting, small text operations, the concurrent maps, the data shapes.
- `app/` is the server around it: configuration loading, HTTP with axum and
  reqwest, and the loop that performs the attempts the library decides on.
- `tests/` exercises the library on concrete values.

Configuration (YAML): `port`, and `providers`, each with `base_url`, `key` and
any other fields, which are passed to the provider as extra request
parameters.
