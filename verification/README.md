# nyaodle

A Discord bot that moves a run of channel messages elsewhere. This crate is its
verified core, written in Verus:

- `framework`: object ids (text form through `bson`), custom ids and their round
  trip, stored interaction kinds.
- `controller`: the move controller's step function, its completion rule and the
  laws over whole runs of events.
- `grubber`: the message collector's state, its page handling, and
  `ChannelSubsequentRun`, whose steps produce exactly what the collector sends.
- `threader`: the threader configuration, the choice of threader, and the step
  functions of the debug and channel-move threaders.
- `ui`: a plain model of the message components and the configuration UI rows.
- `db`, `event`: stored documents, instance races and event routing decisions.

`app/` holds the program: the Discord gateway (poise/serenity), MongoDB access and
the tokio tasks that drive the step functions.
