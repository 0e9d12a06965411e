# hidden

A media import pipeline for a cloud drive. A share link is submitted; the share is read, checked
against limits and free space, taken over into a temporary folder, tidied up with the help of a film
database, stored as a resource, and shared again.

`src/` is the library. It holds every decision of the pipeline and is verified with Verus:

| Module | What it decides |
|---|---|
| `config`, `state` | the configuration, and the settings that override it while the server runs |
| `error` | what a caller is told of an error |
| `db::models` | the records of the database, and the names of their states |
| `json`, `call` | replies of outside services, read by field name, and requests to them |
| `adapters` | what is asked of the cloud drive, when it is asked again, and what its replies mean |
| `services` | matching titles, standard names, tidying up, limits on new shares |
| `share_link` | which share a link names, which code opens it, and what is stored of it |
| `workers` | the import as a state machine, the walk through folders, the scheduled work |
| `api` | what requests ask for and how they are answered |
| `utils` | what the name of a media file says, and how sizes are written |
| `text`, `text_map`, `pattern`, `clock`, `chance`, `startup` | what the others rest on |

An import is driven by `workers::import_worker::ImportRun`: each step takes in what came of the last
action and returns the next one, with the status that the task has from then on.

`app/` is the server around the library: HTTP, the database, the queue, the schedule. It performs the
actions that the library asks for and hands the outcomes back.

`tests/` runs the library on concrete values.

What is trusted, and not proved, is marked `external_body` or `assume_specification`: matching regular
expressions, writing a moment as text, drawing a random number, and two functions on strings.
